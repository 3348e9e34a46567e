use vstd::prelude::*;

verus! {

/// Number of pixels of a `(width, height)` resolution.
pub open spec fn area(res: (u32, u32)) -> int {
    res.0 as int * res.1 as int
}

/// Number of bytes of an RGBA8 buffer of a `(width, height)` resolution.
pub open spec fn rgba_len(res: (u32, u32)) -> int {
    area(res) * 4
}

/// The working resolution of two images: the one with the strictly smaller
/// area, or the first when both areas are equal.
pub open spec fn smallest(res1: (u32, u32), res2: (u32, u32)) -> (u32, u32) {
    if area(res2) < area(res1) {
        res2
    } else {
        res1
    }
}

/// The area of any `u32` resolution fits in a `u64`.
pub proof fn lemma_area_fits_u64(res: (u32, u32))
    ensures
        0 <= area(res) <= u64::MAX,
{
    let w = res.0 as int;
    let h = res.1 as int;
    assert(0 <= w * h <= 0xffff_ffffint * 0xffff_ffffint) by (nonlinear_arith)
        requires
            0 <= w <= 0xffff_ffff,
            0 <= h <= 0xffff_ffff,
    ;
}

/// Picks the working resolution of two images: the one with the strictly
/// smaller area, or `res1` when both areas are equal.
pub fn get_smallest_img(res1: (u32, u32), res2: (u32, u32)) -> (r: (u32, u32))
    ensures
        r == smallest(res1, res2),
{
    proof {
        lemma_area_fits_u64(res1);
        lemma_area_fits_u64(res2);
    }
    let pix1: u64 = res1.0 as u64 * res1.1 as u64;
    let pix2: u64 = res2.0 as u64 * res2.1 as u64;
    if pix2 < pix1 {
        res2
    } else {
        res1
    }
}

} // verus!
