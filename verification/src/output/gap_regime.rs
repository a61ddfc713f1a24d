//! How far the lower bound moved over the last iterations.
//!
//! The movement of an iteration compares the best lower bound so far with the best
//! one at the start of a window of iterations. Here the two bounds are found; the
//! percentage between them is left to whoever can calculate with such numbers.

use vstd::prelude::*;

use crate::float::Float64;

verus! {

/// The name of the rule.
pub const NAME: &'static str = "lb_stability_v1";

/// How many iterations a window has.
pub const WINDOW_ITERATIONS: u32 = 3;

/// What the rule's result is worth.
pub const CLASSIFICATION: &'static str = "heuristic";

/// Whether training may stop on the rule's result.
pub const STOP_ELIGIBLE: bool = false;

/// Negative infinity.
pub open spec fn negative_infinity() -> Float64 {
    Float64 { bits: 0xfff0_0000_0000_0000 }
}

/// The greatest of the first `n` numbers that are numbers; negative infinity where
/// none is.
pub open spec fn best_of(bounds: Seq<Float64>, n: int) -> Float64
    decreases n,
{
    if n <= 0 {
        negative_infinity()
    } else {
        let before = best_of(bounds, n - 1);
        if before.below(bounds[n - 1]) {
            bounds[n - 1]
        } else {
            before
        }
    }
}

/// The best lower bound at an iteration and at the start of the window that ends
/// with it; none where there are not enough iterations for a window.
pub open spec fn window_bounds(bounds: Seq<Float64>, i: int) -> Option<(Float64, Float64)> {
    if i + 1 < WINDOW_ITERATIONS {
        None
    } else {
        Some((best_of(bounds, i + 1), best_of(bounds, i + 2 - WINDOW_ITERATIONS)))
    }
}

/// Finds for each iteration the best lower bound so far and the best one at the
/// start of the window.
pub fn values(lower_bounds: &[Float64]) -> (r: Vec<Option<(Float64, Float64)>>)
    ensures
        r@.len() == lower_bounds@.len(),
        forall|i: int|
            0 <= i < r@.len() ==> #[trigger] r@[i] == window_bounds(lower_bounds@, i),
{
    let mut bests: Vec<Float64> = Vec::new();
    let mut best: Float64 = Float64 { bits: 0xfff0_0000_0000_0000 };
    for i in 0..lower_bounds.len()
        invariant
            best == best_of(lower_bounds@, i as int),
            bests@.len() == i,
            forall|j: int| 0 <= j < i ==> #[trigger] bests@[j] == best_of(lower_bounds@, j + 1),
    {
        if best.less_than(lower_bounds[i]) {
            best = lower_bounds[i];
        }
        bests.push(best);
    }
    let mut r: Vec<Option<(Float64, Float64)>> = Vec::new();
    for i in 0..bests.len()
        invariant
            bests@.len() == lower_bounds@.len(),
            forall|j: int|
                0 <= j < bests@.len() ==> #[trigger] bests@[j] == best_of(lower_bounds@, j + 1),
            r@.len() == i,
            forall|j: int| 0 <= j < i ==> #[trigger] r@[j] == window_bounds(lower_bounds@, j),
    {
        let back: usize = WINDOW_ITERATIONS as usize - 1;
        if i < back {
            r.push(None);
        } else {
            r.push(Some((bests[i], bests[i - back])));
        }
    }
    r
}

/// The best lower bound is a number, never decreases, and is never below a bound
/// that was seen.
pub proof fn best_never_decreases(bounds: Seq<Float64>, n: int, m: int)
    requires
        n <= m,
    ensures
        !best_of(bounds, m).nan(),
        !best_of(bounds, m).below(best_of(bounds, n)),
        forall|k: int| 0 <= k < m ==> !best_of(bounds, m).below(#[trigger] bounds[k]),
    decreases m,
{
    if m > 0 {
        let before = best_of(bounds, m - 1);
        let best = best_of(bounds, m);
        if n < m {
            best_never_decreases(bounds, n, m - 1);
        } else {
            best_never_decreases(bounds, n - 1, m - 1);
        }
        assert forall|k: int| 0 <= k < m implies !best.below(#[trigger] bounds[k]) by {
            if k < m - 1 {
                assert(!before.below(bounds[k]));
            }
        }
    } else {
        best_starts(bounds, n);
        best_starts(bounds, m);
    }
}

proof fn best_starts(bounds: Seq<Float64>, n: int)
    requires
        n <= 0,
    ensures
        best_of(bounds, n) == negative_infinity(),
        !negative_infinity().nan(),
{
}

/// The best lower bound is one of the bounds that were seen, or negative infinity.
proof fn best_is_one_of(bounds: Seq<Float64>, n: int)
    requires
        n <= bounds.len(),
    ensures
        best_of(bounds, n) == (Float64 { bits: 0xfff0_0000_0000_0000 }) || exists|k: int|
            0 <= k < n && best_of(bounds, n) == #[trigger] bounds[k],
    decreases n,
{
    if n > 0 {
        best_is_one_of(bounds, n - 1);
        if best_of(bounds, n - 1).below(bounds[n - 1]) {
            assert(best_of(bounds, n) == bounds[n - 1]);
        }
    }
}

/// Until three iterations are over there is no movement. From then on, an iteration
/// compares a bound that it or an earlier one reached, and than which none up to it is
/// greater, with such a bound of two iterations before.
pub proof fn windows_compare_the_best_bounds(bounds: Seq<Float64>, i: int)
    requires
        0 <= i < bounds.len(),
    ensures
        window_bounds(bounds, i) is None <==> i < 2,
        window_bounds(bounds, i) matches Some((now, then)) ==> {
            &&& forall|k: int| 0 <= k <= i ==> !now.below(#[trigger] bounds[k])
            &&& forall|k: int| 0 <= k <= i - 2 ==> !then.below(#[trigger] bounds[k])
            &&& now == (Float64 { bits: 0xfff0_0000_0000_0000 }) || exists|k: int|
                0 <= k <= i && now == #[trigger] bounds[k]
            &&& then == (Float64 { bits: 0xfff0_0000_0000_0000 }) || exists|k: int|
                0 <= k <= i - 2 && then == #[trigger] bounds[k]
            &&& !now.nan() && !then.nan() && !now.below(then)
        },
{
    if i >= 2 {
        best_never_decreases(bounds, i - 1, i + 1);
        best_never_decreases(bounds, i - 1, i - 1);
        best_is_one_of(bounds, i + 1);
        best_is_one_of(bounds, i - 1);
        let now = best_of(bounds, i + 1);
        let then = best_of(bounds, i - 1);
        if now != (Float64 { bits: 0xfff0_0000_0000_0000 }) {
            let k = choose|k: int| 0 <= k < i + 1 && now == #[trigger] bounds[k];
            assert(0 <= k <= i && now == bounds[k]);
        }
        if then != (Float64 { bits: 0xfff0_0000_0000_0000 }) {
            let k = choose|k: int| 0 <= k < i - 1 && then == #[trigger] bounds[k];
            assert(0 <= k <= i - 2 && then == bounds[k]);
        }
    }
}

} // verus!
