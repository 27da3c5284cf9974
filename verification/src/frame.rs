//! Layout of the rendered frame.
//!
//! Rendering traces every pixel of a `width` x `height` frame into a scratch
//! buffer that holds the pixels in row-major order, one row of `width` pixels
//! after another, and then copies the buffer to the frame row by row.
use vstd::prelude::*;
use vstd::arithmetic::div_mod::{
    lemma_fundamental_div_mod,
    lemma_fundamental_div_mod_converse_div,
    lemma_fundamental_div_mod_converse_mod,
};
use vstd::arithmetic::mul::{
    lemma_mul_inequality,
    lemma_mul_is_commutative,
    lemma_mul_is_distributive_add_other_way,
    lemma_mul_nonnegative,
};

verus! {

/// Index in a row-major buffer of the pixel in column `x` of row `y`, for rows
/// of `width` pixels.
pub open spec fn row_major_index(x: int, y: int, width: int) -> int {
    y * width + x
}

/// Number of pixels of a `width` x `height` frame, which is the length of the
/// scratch buffer that rendering fills.
pub fn frame_len(width: u32, height: u32) -> (n: usize)
    requires
        width * height <= usize::MAX,
    ensures
        n == width * height,
{
    (width as usize) * (height as usize)
}

/// Position of the pixel stored at `idx` of a row-major buffer whose rows are
/// `width` pixels long: the column is `idx % width`, the row `idx / width`.
pub fn pixel_coords(idx: u32, width: u32) -> (xy: (u32, u32))
    requires
        width > 0,
    ensures
        xy.0 == idx % width,
        xy.1 == idx / width,
{
    (idx % width, idx / width)
}

/// The pixels of a row-major buffer in the order in which they are copied to
/// the frame: row after row, from the top, and within a row from the left.
/// Each entry holds the column, the row and the pixel to store there.
///
/// Entry `k` is the pixel `scratch[k]`, placed in column `k % width` of row
/// `k / width`.
pub fn scanout<T: Copy>(scratch: &Vec<T>, width: u32, height: u32) -> (writes: Vec<(u32, u32, T)>)
    requires
        scratch@.len() == width * height,
        width * height <= u32::MAX,
    ensures
        writes@.len() == width * height,
        forall|k: int|
            0 <= k < width * height ==> #[trigger] writes@[k] == (
                (k % width as int) as u32,
                (k / width as int) as u32,
                scratch@[k],
            ),
{
    let mut writes: Vec<(u32, u32, T)> = Vec::new();
    let mut y: u32 = 0;
    while y < height
        invariant
            y <= height,
            scratch@.len() == width * height,
            width * height <= u32::MAX,
            writes@.len() == y * width,
            forall|k: int|
                0 <= k < writes@.len() ==> #[trigger] writes@[k] == (
                    (k % width as int) as u32,
                    (k / width as int) as u32,
                    scratch@[k],
                ),
        decreases height - y,
    {
        proof {
            lemma_row_span(y as int, width as int, height as int);
        }
        // The row `y` occupies `scratch[y * width .. (y + 1) * width]`.
        let start: u32 = y * width;
        let mut x: u32 = 0;
        while x < width
            invariant
                y < height,
                x <= width,
                start == y * width,
                start + width <= width * height,
                width * height <= u32::MAX,
                scratch@.len() == width * height,
                writes@.len() == start + x,
                forall|k: int|
                    0 <= k < writes@.len() ==> #[trigger] writes@[k] == (
                        (k % width as int) as u32,
                        (k / width as int) as u32,
                        scratch@[k],
                    ),
            decreases width - x,
        {
            let idx: u32 = start + x;
            proof {
                lemma_pixel_index_roundtrip(x as int, y as int, width as int, height as int);
            }
            let pixel: T = scratch[idx as usize];
            writes.push((x, y, pixel));
            x = x + 1;
        }
        y = y + 1;
    }
    proof {
        lemma_mul_is_commutative(height as int, width as int);
    }
    writes
}

/// Every pixel of the frame has its own place in the scratch buffer: the pixel
/// in column `x` of row `y` is stored at `y * width + x`, inside the buffer,
/// and that index maps back to column `x` and row `y`.
pub proof fn lemma_pixel_index_roundtrip(x: int, y: int, width: int, height: int)
    requires
        0 <= x < width,
        0 <= y < height,
    ensures
        0 <= row_major_index(x, y, width) < width * height,
        row_major_index(x, y, width) % width == x,
        row_major_index(x, y, width) / width == y,
{
    lemma_row_span(y, width, height);
    lemma_fundamental_div_mod_converse_mod(y * width + x, width, y, x);
    lemma_fundamental_div_mod_converse_div(y * width + x, width, y, x);
}

/// Row `y` of the frame occupies the indices `y * width .. (y + 1) * width`
/// of the scratch buffer, which lie inside the buffer.
proof fn lemma_row_span(y: int, width: int, height: int)
    requires
        0 <= y < height,
        0 <= width,
    ensures
        0 <= y * width,
        (y + 1) * width == y * width + width,
        y * width + width <= width * height,
{
    lemma_mul_inequality(y + 1, height, width);
    lemma_mul_is_distributive_add_other_way(width, y, 1);
    lemma_mul_is_commutative(height, width);
    lemma_mul_nonnegative(y, width);
}

/// Every index of the scratch buffer names a pixel of the frame: the index
/// `idx` stands for column `idx % width` of row `idx / width`, which lie inside
/// the frame, and that pixel is stored back at `idx`.
pub proof fn lemma_pixel_coords_in_frame(idx: int, width: int, height: int)
    requires
        0 <= height,
        0 <= idx < width * height,
    ensures
        width > 0,
        0 <= idx % width < width,
        0 <= idx / width < height,
        row_major_index(idx % width, idx / width, width) == idx,
{
    if width <= 0 {
        assert(width * height <= 0) by (nonlinear_arith)
            requires
                width <= 0,
                0 <= height,
        ;
    }
    lemma_fundamental_div_mod(idx, width);
    assert(idx / width * width == width * (idx / width)) by (nonlinear_arith);
    assert(0 <= idx % width < width);
    assert(0 <= idx / width) by {
        vstd::arithmetic::div_mod::lemma_div_pos_is_pos(idx, width);
    }
    if idx / width >= height {
        lemma_mul_inequality(height, idx / width, width);
        assert(height * width == width * height) by (nonlinear_arith);
    }
}

} // verus!
