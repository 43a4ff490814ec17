use vstd::prelude::*;

use crate::fp::Fp;
use crate::fp::le;
use crate::fp::le_bits;
use crate::fp::EPSILON_BITS;

verus! {

/// The most terms the incomplete-gamma series may add before it gives up.
/// The series is a rising-factorial quotient and converges in a handful of
/// terms on the statistic's domain; the cap turns a pathological input into a
/// reported failure instead of an endless loop.
pub const SERIES_ITERATION_CAP: usize = 10000;

/// What the convergent series should do after a term has been added.
#[derive(Clone, Copy, Debug, PartialEq, Eq, Structural)]
pub enum SeriesDecision {
    /// The last increment was at most the machine epsilon: the partial sum
    /// before that increment is the series' value.
    Converged,
    /// The increment was still significant: add another term.
    Continue,
    /// The iteration cap is exhausted without convergence: fail.
    FailedToConverge,
}

/// The stopping rule: converged when the increment compares at or below the
/// machine epsilon (so a NaN increment never counts as converged), otherwise
/// continue until the cap is exhausted.
pub open spec fn series_decision_spec(delta_bits: u64, iterations: int) -> SeriesDecision {
    if le_bits(delta_bits, EPSILON_BITS) {
        SeriesDecision::Converged
    } else if iterations >= SERIES_ITERATION_CAP {
        SeriesDecision::FailedToConverge
    } else {
        SeriesDecision::Continue
    }
}

/// Decides, from the increment `delta` that the latest series term
/// contributed and the number of terms added so far, whether the series has
/// converged, must continue, or has run out of its iteration budget.
pub fn series_decision(delta: &Fp, iterations: usize) -> (r: SeriesDecision)
    ensures
        r == series_decision_spec(delta@, iterations as int),
{
    let eps = Fp::from_bits(EPSILON_BITS);
    if le(delta, &eps) {
        SeriesDecision::Converged
    } else if iterations >= SERIES_ITERATION_CAP {
        SeriesDecision::FailedToConverge
    } else {
        SeriesDecision::Continue
    }
}

} // verus!
