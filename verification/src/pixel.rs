//! Packing of row-padded pictures.
//!
//! A converted picture arrives as one buffer in which each row of
//! `width * 3` bytes starts `stride` bytes after the previous one. Whatever
//! lies between the end of a row and the start of the next is padding and
//! must not reach the output.

use vstd::prelude::*;
use vstd::slice::slice_subrange;
use vstd::slice::slice_to_vec;

verus! {

/// Bytes per pixel of packed RGB.
pub const BYTES_PER_PIXEL: u64 = 3;

/// The number of picture bytes in one row.
pub open spec fn row_bytes(width: u32) -> int {
    width as int * 3
}

/// A buffer of `len` bytes holds `height` rows of `width` pixels that start
/// `stride` bytes apart: rows do not overlap and the last one ends inside the
/// buffer.
pub open spec fn layout_fits(len: int, stride: int, width: u32, height: u32) -> bool {
    &&& stride >= row_bytes(width)
    &&& (height == 0 || (height - 1) * stride + row_bytes(width) <= len)
}

/// The first `rows` rows of the picture, one directly after the other.
pub open spec fn packed_rows(data: Seq<u8>, stride: int, width: u32, rows: int) -> Seq<u8>
    decreases rows,
{
    if rows <= 0 {
        Seq::empty()
    } else {
        packed_rows(data, stride, width, rows - 1) + data.subrange(
            (rows - 1) * stride,
            (rows - 1) * stride + row_bytes(width),
        )
    }
}

proof fn lemma_row_in_bounds(len: int, stride: int, width: u32, rows: int, y: int)
    requires
        stride >= row_bytes(width),
        rows >= 1,
        (rows - 1) * stride + row_bytes(width) <= len,
        0 <= y < rows,
    ensures
        0 <= y * stride,
        y * stride + row_bytes(width) <= len,
        y * stride <= (rows - 1) * stride,
{
    assert(y * stride <= (rows - 1) * stride) by (nonlinear_arith)
        requires
            0 <= y <= rows - 1,
            stride >= 0,
    ;
    assert(0 <= y * stride) by (nonlinear_arith)
        requires
            0 <= y,
            stride >= 0,
    ;
}

/// The packed picture has exactly `rows * width * 3` bytes.
pub proof fn lemma_packed_len(data: Seq<u8>, stride: int, width: u32, rows: int)
    requires
        0 <= rows,
        stride >= row_bytes(width),
        rows == 0 || (rows - 1) * stride + row_bytes(width) <= data.len(),
    ensures
        packed_rows(data, stride, width, rows).len() == rows * row_bytes(width),
    decreases rows,
{
    if rows > 0 {
        let rb = row_bytes(width);
        lemma_row_in_bounds(data.len() as int, stride, width, rows, rows - 1);
        if rows > 1 {
            lemma_row_in_bounds(data.len() as int, stride, width, rows, rows - 2);
        }
        lemma_packed_len(data, stride, width, rows - 1);
        assert(rows * rb == (rows - 1) * rb + rb) by (nonlinear_arith);
    }
}

/// Byte `x` of row `y` of the packed picture is byte `x` of row `y` of the
/// source: no padding byte is taken and no picture byte is lost.
pub proof fn lemma_packed_byte(data: Seq<u8>, stride: int, width: u32, rows: int, y: int, x: int)
    requires
        stride >= row_bytes(width),
        rows >= 1,
        (rows - 1) * stride + row_bytes(width) <= data.len(),
        0 <= y < rows,
        0 <= x < row_bytes(width),
    ensures
        0 <= y * row_bytes(width) + x < packed_rows(data, stride, width, rows).len(),
        0 <= y * stride + x < data.len(),
        packed_rows(data, stride, width, rows)[y * row_bytes(width) + x] == data[y * stride + x],
    decreases rows,
{
    let rb = row_bytes(width);
    lemma_packed_len(data, stride, width, rows);
    lemma_row_in_bounds(data.len() as int, stride, width, rows, y);
    lemma_row_in_bounds(data.len() as int, stride, width, rows, rows - 1);
    assert(rows * rb == (rows - 1) * rb + rb) by (nonlinear_arith);
    assert(y * rb <= (rows - 1) * rb) by (nonlinear_arith)
        requires
            0 <= y <= rows - 1,
            rb >= 0,
    ;
    assert(0 <= y * rb) by (nonlinear_arith)
        requires
            0 <= y,
            rb >= 0,
    ;
    if rows > 1 {
        lemma_row_in_bounds(data.len() as int, stride, width, rows, rows - 2);
        lemma_packed_len(data, stride, width, rows - 1);
    }
    if y == rows - 1 {
        // The byte lies in the row appended last.
    } else {
        lemma_packed_byte(data, stride, width, rows - 1, y, x);
        assert(y * rb + rb <= (rows - 1) * rb) by (nonlinear_arith)
            requires
                0 <= y <= rows - 2,
                rb >= 0,
        ;
    }
}

/// Where rows follow each other without padding, packing takes the first
/// `rows * width * 3` bytes of the source as they are.
pub proof fn lemma_packed_contiguous(data: Seq<u8>, width: u32, rows: int)
    requires
        0 <= rows,
        rows * row_bytes(width) <= data.len(),
    ensures
        packed_rows(data, row_bytes(width), width, rows) == data.subrange(
            0,
            rows * row_bytes(width),
        ),
    decreases rows,
{
    let rb = row_bytes(width);
    if rows > 0 {
        assert(rows * rb == (rows - 1) * rb + rb) by (nonlinear_arith);
        assert(0 <= (rows - 1) * rb) by (nonlinear_arith)
            requires
                rows >= 1,
                rb >= 0,
        ;
        lemma_packed_contiguous(data, width, rows - 1);
        assert(packed_rows(data, rb, width, rows) =~= data.subrange(0, rows * rb));
    } else {
        assert(rows * rb == 0) by (nonlinear_arith)
            requires
                rows == 0,
        ;
        assert(packed_rows(data, rb, width, rows) =~= data.subrange(0, rows * rb));
    }
}

/// A picture without padding whose buffer holds nothing but the picture
/// packs to itself: the verbatim copy and the row-by-row copy agree.
pub proof fn lemma_unpadded_is_verbatim(data: Seq<u8>, width: u32, height: u32)
    requires
        data.len() == height * row_bytes(width),
    ensures
        packed_rows(data, row_bytes(width), width, height as int) == data,
{
    lemma_packed_contiguous(data, width, height as int);
    assert(data.subrange(0, data.len() as int) =~= data);
}

/// Strips the padding from a picture of `width` by `height` pixels whose
/// rows start `stride` bytes apart in `data`.
///
/// Returns `None` exactly where the buffer cannot hold such a picture.
/// Otherwise the result has `width * height * 3` bytes, and byte `x` of its
/// row `y` is byte `y * stride + x` of `data`.
pub fn normalize(data: &[u8], stride: usize, width: u32, height: u32) -> (out: Option<Vec<u8>>)
    ensures
        out.is_some() <==> layout_fits(data@.len() as int, stride as int, width, height),
        out matches Some(v) ==> {
            &&& v@ == packed_rows(data@, stride as int, width, height as int)
            &&& v@.len() == width * height * 3
        },
{
    let len: usize = data.len();
    let row: u64 = width as u64 * BYTES_PER_PIXEL;
    if (stride as u64) < row {
        return None;
    }
    let row_len: usize = row as usize;
    if height == 0 {
        let empty: Vec<u8> = Vec::new();
        assert(width * height * 3 == 0) by (nonlinear_arith)
            requires
                height == 0,
        ;
        return Some(empty);
    }
    assert(0 <= (height - 1) * stride <= 0xffff_ffff * 0xffff_ffff_ffff_ffff) by (nonlinear_arith)
        requires
            0 <= height - 1 <= 0xffff_ffff,
            0 <= stride <= 0xffff_ffff_ffff_ffff,
    ;
    let last_row: u128 = (height - 1) as u128 * (stride as u128);
    if last_row + (row as u128) > len as u128 {
        return None;
    }
    let rows: usize = height as usize;
    proof {
        lemma_packed_len(data@, stride as int, width, rows as int);
        assert(rows * row_bytes(width) == width * height * 3) by (nonlinear_arith)
            requires
                rows == height,
                row_bytes(width) == width * 3,
        ;
    }
    if stride == row_len {
        proof {
            assert((rows - 1) * row_len + row_len == rows * row_len) by (nonlinear_arith);
            lemma_packed_contiguous(data@, width, rows as int);
        }
        let total: usize = rows * row_len;
        let picture = slice_subrange(data, 0, total);
        return Some(slice_to_vec(picture));
    }
    let mut out: Vec<u8> = Vec::new();
    let mut y: usize = 0;
    while y < rows
        invariant
            0 <= y <= rows,
            rows == height,
            rows >= 1,
            row_len == row_bytes(width),
            stride >= row_len,
            (rows - 1) * stride + row_len <= data@.len(),
            len == data@.len(),
            out@ == packed_rows(data@, stride as int, width, y as int),
        decreases rows - y,
    {
        proof {
            lemma_row_in_bounds(data@.len() as int, stride as int, width, rows as int, y as int);
        }
        let start: usize = y * stride;
        let line = slice_subrange(data, start, start + row_len);
        let ghost before = out@;
        out.extend_from_slice(line);
        proof {
            assert(out@ =~= before + line@);
        }
        y += 1;
    }
    Some(out)
}

} // verus!
