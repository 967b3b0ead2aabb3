//! The bitmap source: a grayscale image, scanned row by row, yields one
//! feed per pixel whose luma exceeds the threshold of 128.  The library
//! fixes which pixels make the cut and in what order; turning a pixel's
//! column and row into normalized coordinates is a floating-point affair
//! and happens outside.

use vstd::prelude::*;

verus! {

/// The luma above which a pixel emits a feed.
pub const LUMA_THRESHOLD: u8 = 128;

/// A pixel position of the source bitmap: column `x`, row `y`.
#[derive(Clone, Copy, Debug, PartialEq, Eq, Structural)]
pub struct PixelPoint {
    pub x: u32,
    pub y: u32,
}

/// The positions of the bright pixels of a row-major scan, in scan order:
/// pixel `k` of the scan sits at column `k % width`, row `k / width`.
pub open spec fn bright_positions(width: int, luma: Seq<u8>) -> Seq<PixelPoint>
    recommends
        width > 0,
    decreases luma.len(),
{
    if luma.len() == 0 {
        Seq::empty()
    } else {
        let prefix = bright_positions(width, luma.drop_last());
        let k = luma.len() - 1;
        if luma.last() > LUMA_THRESHOLD {
            prefix.push(PixelPoint { x: (k % width) as u32, y: (k / width) as u32 })
        } else {
            prefix
        }
    }
}

/// The bright pixels of a bitmap given as its row-major luma plane, in
/// scan order.
pub fn threshold_pixels(width: u32, height: u32, luma: &[u8]) -> (r: Vec<PixelPoint>)
    requires
        width > 0,
        luma@.len() == (width as int) * (height as int),
    ensures
        r@ == bright_positions(width as int, luma@),
{
    let n = luma.len();
    let mut r: Vec<PixelPoint> = Vec::new();
    let mut k: usize = 0;
    while k < n
        invariant
            width > 0,
            k <= n,
            n == luma@.len(),
            n == (width as int) * (height as int),
            r@ == bright_positions(width as int, luma@.subrange(0, k as int)),
        decreases n - k,
    {
        proof {
            assert(luma@.subrange(0, k + 1).drop_last() =~= luma@.subrange(0, k as int));
            assert(luma@.subrange(0, k + 1).last() == luma@[k as int]);
            assert((k as int) / (width as int) < (height as int)) by (nonlinear_arith)
                requires
                    width > 0,
                    0 <= k,
                    (k as int) < (width as int) * (height as int),
            ;
        }
        if luma[k] > LUMA_THRESHOLD {
            let x = (k % (width as usize)) as u32;
            let y = (k / (width as usize)) as u32;
            r.push(PixelPoint { x, y });
        }
        k = k + 1;
    }
    proof {
        assert(luma@.subrange(0, n as int) =~= luma@);
    }
    r
}

/// The base of every image feed's radius: half the larger image extent.
/// The renderer's scale factor is applied outside, in floating point.
pub fn half_extent(width: u32, height: u32) -> (r: u32)
    ensures
        r == if width as int / 2 > height as int / 2 {
            width as int / 2
        } else {
            height as int / 2
        },
{
    let half_image_width = width / 2;
    let half_image_height = height / 2;
    if half_image_width > half_image_height {
        half_image_width
    } else {
        half_image_height
    }
}

/// The iteration count a bitmap implies: one per pixel, bright or not,
/// so the emitted feeds may be fewer than the implied iterations.
pub fn implied_iterations(width: u32, height: u32) -> (r: u32)
    requires
        (width as int) * (height as int) <= u32::MAX,
    ensures
        r == (width as int) * (height as int),
{
    width * height
}

/// An all-dark bitmap — no luma above the threshold — maps to no feeds.
pub proof fn lemma_dark_image_empty(width: int, luma: Seq<u8>)
    requires
        forall|k: int| 0 <= k < luma.len() ==> luma[k] <= LUMA_THRESHOLD,
    ensures
        bright_positions(width, luma) =~= Seq::<PixelPoint>::empty(),
    decreases luma.len(),
{
    if luma.len() > 0 {
        assert forall|k: int| 0 <= k < luma.drop_last().len() implies luma.drop_last()[k]
            <= LUMA_THRESHOLD by {
            assert(luma.drop_last()[k] == luma[k]);
        }
        lemma_dark_image_empty(width, luma.drop_last());
    }
}

/// An all-bright bitmap maps to one feed per pixel, in scan order: the
/// feed of pixel `k` sits at column `k % width`, row `k / width`.
pub proof fn lemma_bright_image_full(width: int, luma: Seq<u8>)
    requires
        width > 0,
        forall|k: int| 0 <= k < luma.len() ==> luma[k] > LUMA_THRESHOLD,
    ensures
        bright_positions(width, luma).len() == luma.len(),
        forall|k: int|
            0 <= k < luma.len() ==> bright_positions(width, luma)[k] == (PixelPoint {
                x: (k % width) as u32,
                y: (k / width) as u32,
            }),
    decreases luma.len(),
{
    if luma.len() > 0 {
        assert forall|k: int| 0 <= k < luma.drop_last().len() implies luma.drop_last()[k]
            > LUMA_THRESHOLD by {
            assert(luma.drop_last()[k] == luma[k]);
        }
        lemma_bright_image_full(width, luma.drop_last());
    }
}

} // verus!
