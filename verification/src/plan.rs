//! The run's schedule: which sample slot each iteration reads.  The
//! generator walks the block cyclically, one iteration per emitted feed,
//! so the schedule has exactly one row per requested iteration.

use vstd::prelude::*;

verus! {

/// One row of a run's schedule: the iteration counter and the sample
/// slot that iteration reads (slot 0 when the block is empty).
#[derive(Clone, Copy, Debug, PartialEq, Eq, Structural)]
pub struct FeedStep {
    pub i: u32,
    pub index: usize,
}

/// The sample slot iteration `i` reads: the block is walked cyclically.
pub fn sample_index(i: u32, n_samples: usize) -> (r: usize)
    requires
        n_samples > 0,
    ensures
        r == i as int % n_samples as int,
        r < n_samples,
{
    (i as usize) % n_samples
}

/// The full schedule of a run: one row per iteration, in order, each
/// reading the block cyclically.  Every run emits exactly `iterations`
/// feeds, one per row, and the rows' counters rise one by one.
pub fn feed_schedule(iterations: u32, n_samples: usize) -> (r: Vec<FeedStep>)
    ensures
        r@.len() == iterations,
        forall|j: int| 0 <= j < iterations ==> r@[j].i == j,
        forall|j: int|
            0 <= j < iterations ==> r@[j].index == if n_samples > 0 {
                j % (n_samples as int)
            } else {
                0
            },
{
    let mut r: Vec<FeedStep> = Vec::new();
    let mut i: u32 = 0;
    while i < iterations
        invariant
            i <= iterations,
            r@.len() == i,
            forall|j: int| 0 <= j < i ==> r@[j].i == j,
            forall|j: int|
                0 <= j < i ==> r@[j].index == if n_samples > 0 {
                    j % (n_samples as int)
                } else {
                    0
                },
        decreases iterations - i,
    {
        let index: usize = if n_samples > 0 {
            sample_index(i, n_samples)
        } else {
            0
        };
        r.push(FeedStep { i, index });
        i = i + 1;
    }
    r
}

/// The iteration count a run uses: an explicit request wins; otherwise a
/// loaded bitmap implies its own count, and failing both, one iteration
/// per pixel of the output surface.
pub fn resolve_iterations(configured: u32, implied: u32, width: u32, height: u32) -> (r: u32)
    requires
        configured == 0 && implied == 0 ==> (width as int) * (height as int) <= u32::MAX,
    ensures
        r == if configured > 0 {
            configured as int
        } else if implied > 0 {
            implied as int
        } else {
            (width as int) * (height as int)
        },
{
    if configured > 0 {
        configured
    } else if implied > 0 {
        implied
    } else {
        width * height
    }
}

} // verus!
