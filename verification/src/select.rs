//! Equation selection.  Sixteen point-generating equations sit at indices
//! 0 through 15; the two slots of a run each name one of them, either
//! fixed by configuration or derived per iteration from signal content.

use vstd::prelude::*;

verus! {

/// The index the equation table answers to: 1 through 15 name their own
/// equation, anything else falls back to 0, the default sinusoid.
pub open spec fn canonical_index(index: int) -> int {
    if 1 <= index <= 15 {
        index
    } else {
        0
    }
}

/// Resolves a requested equation index to the one the table holds.
pub fn select_equation(index: usize) -> (r: usize)
    ensures
        r == canonical_index(index as int),
        r <= 15,
{
    if 1 <= index && index <= 15 {
        index
    } else {
        0
    }
}

/// Which equation a slot uses for one iteration: a configured index above
/// zero wins; zero means auto, and the signal-derived index is taken
/// instead.  Either way the out-of-range fallback applies, so the result
/// always names one of the sixteen equations.
pub fn resolve_slot(configured: usize, derived: usize) -> (r: usize)
    ensures
        r == canonical_index(
            if configured > 0 {
                configured as int
            } else {
                derived as int
            },
        ),
        r <= 15,
{
    if configured > 0 {
        select_equation(configured)
    } else {
        select_equation(derived)
    }
}

} // verus!
