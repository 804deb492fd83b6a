//! Raster coordinate arithmetic.
//!
//! The scan runs over a linear pixel index in row-major order.  Row 0 is the
//! bottom of the picture, so the vertical coordinate is inverted when an
//! index is turned back into raster coordinates.

use vstd::prelude::*;

verus! {

/// Column of the pixel with the given linear index.
pub fn pixel_x(index: usize, width: usize) -> (x: usize)
    requires
        width > 0,
    ensures
        x == index % width,
        x < width,
{
    index % width
}

/// Row of the pixel with the given linear index, counted from the top of the
/// picture; linear row 0 is the bottom row.
pub fn pixel_y(index: usize, width: usize, height: usize) -> (y: usize)
    requires
        width > 0,
        index < width * height,
    ensures
        y == height - 1 - index / width,
        y < height,
{
    proof {
        vstd::arithmetic::div_mod::lemma_multiply_divide_lt(index as int, width as int, height as int);
    }
    height - 1 - index / width
}

/// Whether a column lies in the right-hand margin strip, the last hundredth
/// of the picture width, which is painted flat instead of being traced.
pub fn margin_column(x: usize, width: usize) -> (r: bool)
    ensures
        r == (100 * x > 99 * width),
{
    (x as u128) * 100 > (width as u128) * 99
}

/// Offsets of the blur sample window, as one row-major grid of side
/// `window` centred on the pixel: entry `k` is
/// `(k / window - window / 2, k % window - window / 2)`.
/// A window of 1 yields the single offset `(0, 0)`, i.e. no blur.
pub fn blur_offsets(window: usize) -> (r: Vec<(i64, i64)>)
    requires
        1 <= window <= 1000,
    ensures
        r@.len() == window * window,
        forall|k: int| 0 <= k < r@.len() ==> #[trigger] r@[k]
            == (((k / (window as int) - (window as int) / 2) as i64,
                 (k % (window as int) - (window as int) / 2) as i64)),
{
    let half: usize = window / 2;
    let mut r: Vec<(i64, i64)> = Vec::new();
    let mut ix: usize = 0;
    while ix < window
        invariant
            window <= 1000,
            half == window / 2,
            ix <= window,
            r@.len() == ix * window,
            forall|k: int| 0 <= k < r@.len() ==> #[trigger] r@[k]
                == (((k / (window as int) - (window as int) / 2) as i64,
                     (k % (window as int) - (window as int) / 2) as i64)),
        decreases window - ix,
    {
        let mut iy: usize = 0;
        while iy < window
            invariant
                window <= 1000,
                half == window / 2,
                ix < window,
                iy <= window,
                r@.len() == ix * window + iy,
                forall|k: int| 0 <= k < r@.len() ==> #[trigger] r@[k]
                    == (((k / (window as int) - (window as int) / 2) as i64,
                         (k % (window as int) - (window as int) / 2) as i64)),
            decreases window - iy,
        {
            let dx: i64 = ix as i64 - half as i64;
            let dy: i64 = iy as i64 - half as i64;
            r.push((dx, dy));
            proof {
                let k = r@.len() - 1;
                vstd::arithmetic::div_mod::lemma_fundamental_div_mod_converse(
                    k, window as int, ix as int, iy as int);
            }
            iy = iy + 1;
        }
        ix = ix + 1;
        proof {
            assert((ix - 1) * window + window == ix * window) by (nonlinear_arith);
        }
    }
    r
}

} // verus!
