use metric_video_player::display::fit_within;
use metric_video_player::display::Placement;

#[test]
fn picture_of_the_window_shape_fills_it() {
    assert_eq!(fit_within(640, 480, 640, 480), Placement { x: 0, y: 0, width: 640, height: 480 });
    assert_eq!(fit_within(320, 240, 640, 480), Placement { x: 0, y: 0, width: 640, height: 480 });
    assert_eq!(fit_within(1920, 1440, 640, 480), Placement { x: 0, y: 0, width: 640, height: 480 });
}

#[test]
fn wider_window_leaves_bars_left_and_right() {
    assert_eq!(fit_within(640, 480, 1200, 480), Placement { x: 280, y: 0, width: 640, height: 480 });
    assert_eq!(fit_within(4, 3, 1000, 300), Placement { x: 300, y: 0, width: 400, height: 300 });
    assert_eq!(fit_within(1, 1, 11, 4), Placement { x: 3, y: 0, width: 4, height: 4 });
}

#[test]
fn taller_window_leaves_bars_above_and_below() {
    assert_eq!(fit_within(640, 480, 640, 800), Placement { x: 0, y: 160, width: 640, height: 480 });
    assert_eq!(fit_within(16, 9, 1600, 1200), Placement { x: 0, y: 150, width: 1600, height: 900 });
    assert_eq!(fit_within(1, 1, 4, 11), Placement { x: 0, y: 3, width: 4, height: 4 });
}

#[test]
fn scaled_side_is_rounded_down() {
    assert_eq!(fit_within(3, 2, 100, 100), Placement { x: 0, y: 17, width: 100, height: 66 });
    assert_eq!(fit_within(2, 3, 100, 100), Placement { x: 17, y: 0, width: 66, height: 100 });
    assert_eq!(fit_within(1000, 1, 10, 10), Placement { x: 0, y: 5, width: 10, height: 0 });
}

#[test]
fn nothing_is_placed_without_area() {
    let nothing = Placement { x: 0, y: 0, width: 0, height: 0 };
    assert_eq!(fit_within(0, 480, 640, 480), nothing);
    assert_eq!(fit_within(640, 0, 640, 480), nothing);
    assert_eq!(fit_within(640, 480, 0, 480), nothing);
    assert_eq!(fit_within(640, 480, 640, 0), nothing);
    assert_eq!(fit_within(0, 0, 0, 0), nothing);
}

#[test]
fn largest_sizes_do_not_overflow() {
    let m = u32::MAX;
    assert_eq!(fit_within(m, m, m, m), Placement { x: 0, y: 0, width: m, height: m });
    assert_eq!(fit_within(1, m, m, m), Placement { x: 2_147_483_647, y: 0, width: 1, height: m });
    assert_eq!(fit_within(m, 1, m, m), Placement { x: 0, y: 2_147_483_647, width: m, height: 1 });
    assert_eq!(fit_within(m, m, 1, 1), Placement { x: 0, y: 0, width: 1, height: 1 });
}

#[test]
fn placement_stays_inside_the_window() {
    for (pw, ph) in [(1u32, 1u32), (16, 9), (9, 16), (4, 3), (1920, 1080), (7, 1000)] {
        for (ww, wh) in [(1u32, 1u32), (800, 600), (600, 800), (1, 1000), (1000, 1), (333, 77)] {
            let p = fit_within(pw, ph, ww, wh);
            assert!(p.x + p.width <= ww);
            assert!(p.y + p.height <= wh);
            assert!(p.width == ww || p.height == wh);
            assert!(p.x == 0 || p.y == 0);
        }
    }
}
