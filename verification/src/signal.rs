//! Signal preprocessing: the integer side of normalization and the
//! framing of a decoded sound file.  The division of each sample by the
//! spread, like every other floating-point step, happens outside the
//! library; what is fixed here is which divisor is used and when the
//! block passes through unscaled.

use vstd::prelude::*;

verus! {

/// The smallest sample of the block, or 0 for an empty block.
pub open spec fn seq_min(s: Seq<i32>) -> int
    decreases s.len(),
{
    if s.len() == 0 {
        0
    } else if s.len() == 1 {
        s[0] as int
    } else {
        let rest = seq_min(s.drop_last());
        if (s.last() as int) < rest {
            s.last() as int
        } else {
            rest
        }
    }
}

/// The largest sample of the block, or 0 for an empty block.
pub open spec fn seq_max(s: Seq<i32>) -> int
    decreases s.len(),
{
    if s.len() == 0 {
        0
    } else if s.len() == 1 {
        s[0] as int
    } else {
        let rest = seq_max(s.drop_last());
        if (s.last() as int) > rest {
            s.last() as int
        } else {
            rest
        }
    }
}

pub proof fn lemma_min_le_max(s: Seq<i32>)
    ensures
        seq_min(s) <= seq_max(s),
    decreases s.len(),
{
    if s.len() > 1 {
        lemma_min_le_max(s.drop_last());
    }
}

/// The extreme samples of a block, `(0, 0)` for an empty block.
pub fn min_max(samples: &[i32]) -> (r: (i32, i32))
    ensures
        r.0 == seq_min(samples@),
        r.1 == seq_max(samples@),
{
    let n = samples.len();
    if n == 0 {
        return (0, 0);
    }
    let mut mn = samples[0];
    let mut mx = samples[0];
    let mut k: usize = 1;
    proof {
        assert(samples@.subrange(0, 1).len() == 1);
        assert(samples@.subrange(0, 1)[0] == samples@[0]);
    }
    while k < n
        invariant
            1 <= k <= n,
            n == samples@.len(),
            mn == seq_min(samples@.subrange(0, k as int)),
            mx == seq_max(samples@.subrange(0, k as int)),
        decreases n - k,
    {
        proof {
            assert(samples@.subrange(0, k + 1).drop_last() =~= samples@.subrange(0, k as int));
            assert(samples@.subrange(0, k + 1).last() == samples@[k as int]);
        }
        let v = samples[k];
        if v < mn {
            mn = v;
        }
        if v > mx {
            mx = v;
        }
        k = k + 1;
    }
    proof {
        assert(samples@.subrange(0, n as int) =~= samples@);
    }
    (mn, mx)
}

/// The spread `max - min` of the block, by which the normalizer divides
/// every sample.  A spread of zero (empty or constant block) means the
/// samples pass through unscaled, so no run divides by zero.
pub fn normalize_divisor(samples: &[i32]) -> (d: i64)
    ensures
        d == seq_max(samples@) - seq_min(samples@),
        d >= 0,
{
    let (mn, mx) = min_max(samples);
    proof {
        lemma_min_le_max(samples@);
    }
    mx as i64 - mn as i64
}

/// The ramp signal used when no sound file is given: the integers
/// `0 ..= size`, one per sample slot.
pub fn ramp(size: usize) -> (r: Vec<i32>)
    requires
        size <= i32::MAX,
    ensures
        r@.len() == size + 1,
        forall|j: int| 0 <= j <= size ==> r@[j] == j,
{
    let mut r: Vec<i32> = Vec::new();
    let mut k: usize = 0;
    while k <= size
        invariant
            size <= i32::MAX,
            k <= size + 1,
            r@.len() == k,
            forall|j: int| 0 <= j < k ==> r@[j] == j,
        decreases size + 1 - k,
    {
        r.push(k as i32);
        k = k + 1;
    }
    r
}

/// How a decoded sound file is cut into frames: `r.0` is the block size
/// (samples per video frame, all channels interleaved) and `r.1` the
/// number of frames the run renders — the requested count capped by what
/// the file holds, or everything the file holds when none was requested.
pub fn frame_plan(
    sample_rate: u32,
    channels: u16,
    fps: usize,
    frames: usize,
    n_samples: usize,
) -> (r: (usize, usize))
    requires
        fps > 0,
        (sample_rate as int / fps as int) * (channels as int) <= usize::MAX,
        (sample_rate as int / fps as int) * (channels as int) > 0,
    ensures
        r.0 == (sample_rate as int / fps as int) * (channels as int),
        r.1 == if frames > 0 {
            vstd::math::min(frames as int, n_samples as int / r.0 as int)
        } else {
            n_samples as int / r.0 as int
        },
{
    let blocksize: usize = (sample_rate as usize / fps) * channels as usize;
    let available: usize = n_samples / blocksize;
    let number_of_frames: usize = if frames > 0 {
        if frames < available {
            frames
        } else {
            available
        }
    } else {
        available
    };
    (blocksize, number_of_frames)
}

/// The synthetic source used when no sound file is given: a fixed block
/// size of 255 and at least one frame.
pub fn ramp_plan(frames_requested: usize) -> (r: (usize, usize))
    ensures
        r.0 == 255,
        r.1 == if frames_requested > 0 {
            frames_requested as int
        } else {
            1
        },
{
    let frames: usize = if frames_requested > 0 {
        frames_requested
    } else {
        1
    };
    (255, frames)
}

} // verus!
