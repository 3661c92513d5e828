//! Where a picture goes in a window.

use vstd::prelude::*;

verus! {

/// A rectangle in a window, in pixels from its top left corner.
#[derive(Clone, Copy, Debug, PartialEq, Eq, Structural)]
pub struct Placement {
    pub x: u32,
    pub y: u32,
    pub width: u32,
    pub height: u32,
}

/// The window is wider than the picture, shape for shape.
pub open spec fn spec_window_is_wider(
    picture_width: u32,
    picture_height: u32,
    window_width: u32,
    window_height: u32,
) -> bool {
    window_width * picture_height > picture_width * window_height
}

/// The largest rectangle of the picture's shape that fits in the window,
/// centred: as high as the window where the window is the wider of the two,
/// as wide as the window otherwise, the other side scaled to match and
/// rounded down. A picture or a window without area gets no room.
pub open spec fn spec_fit_within(
    picture_width: u32,
    picture_height: u32,
    window_width: u32,
    window_height: u32,
) -> Placement {
    if picture_width == 0 || picture_height == 0 || window_width == 0 || window_height == 0 {
        Placement { x: 0, y: 0, width: 0, height: 0 }
    } else if spec_window_is_wider(picture_width, picture_height, window_width, window_height) {
        let width = window_height * picture_width / (picture_height as int);
        Placement {
            x: ((window_width - width) / 2) as u32,
            y: 0,
            width: width as u32,
            height: window_height,
        }
    } else {
        let height = window_width * picture_height / (picture_width as int);
        Placement {
            x: 0,
            y: ((window_height - height) / 2) as u32,
            width: window_width,
            height: height as u32,
        }
    }
}

/// The scaled side is no longer than the side of the window it lies along.
proof fn lemma_scaled_side_fits(long: int, short: int, side: int, other: int)
    requires
        0 < short,
        0 <= long,
        0 <= side,
        0 <= other,
        side * long <= other * short,
    ensures
        side * long / short <= other,
{
    assert(side * long / short <= other) by (nonlinear_arith)
        requires
            0 < short,
            side * long <= other * short,
    ;
}

/// Places a picture in a window without changing its shape.
///
/// The rectangle lies inside the window, touches it on two opposite sides
/// and leaves the same margin, up to a pixel, on the other two.
pub fn fit_within(picture_width: u32, picture_height: u32, window_width: u32, window_height: u32)
    -> (placed: Placement)
    ensures
        placed == spec_fit_within(picture_width, picture_height, window_width, window_height),
        placed.x + placed.width <= window_width,
        placed.y + placed.height <= window_height,
        placed.width == window_width || placed.height == window_height || (placed.width == 0
            && placed.height == 0),
{
    if picture_width == 0 || picture_height == 0 || window_width == 0 || window_height == 0 {
        return Placement { x: 0, y: 0, width: 0, height: 0 };
    }
    assert(window_width * picture_height <= 0xffff_ffff * 0xffff_ffff) by (nonlinear_arith)
        requires
            window_width <= 0xffff_ffff,
            picture_height <= 0xffff_ffff,
    ;
    assert(picture_width * window_height <= 0xffff_ffff * 0xffff_ffff) by (nonlinear_arith)
        requires
            picture_width <= 0xffff_ffff,
            window_height <= 0xffff_ffff,
    ;
    let across: u64 = (window_width as u64) * (picture_height as u64);
    let down: u64 = (picture_width as u64) * (window_height as u64);
    if across > down {
        proof {
            lemma_scaled_side_fits(
                picture_width as int,
                picture_height as int,
                window_height as int,
                window_width as int,
            );
            assert(window_height * picture_width == picture_width * window_height)
                by (nonlinear_arith);
        }
        let width: u64 = down / (picture_height as u64);
        let fitted: u32 = width as u32;
        Placement {
            x: (window_width - fitted) / 2,
            y: 0,
            width: fitted,
            height: window_height,
        }
    } else {
        proof {
            lemma_scaled_side_fits(
                picture_height as int,
                picture_width as int,
                window_width as int,
                window_height as int,
            );
        }
        let height: u64 = across / (picture_width as u64);
        let fitted: u32 = height as u32;
        Placement {
            x: 0,
            y: (window_height - fitted) / 2,
            width: window_width,
            height: fitted,
        }
    }
}

} // verus!
