use vstd::prelude::*;

use crate::fp::Fp;
use crate::fp::is_negative;
use crate::fp::is_negative_bits;
use crate::ErrorKind;

verus! {

/// How a chi-square statistic is converted into a right-tail p-value.
#[derive(Clone, Copy, Debug, PartialEq, Eq, Structural)]
pub enum ChiSquareMethod {
    /// Exactly two degrees of freedom: the survival function is the
    /// exponential of minus half the statistic, with no series needed.
    ClosedForm,
    /// Any other admissible degree count: one minus the exponential of the
    /// log of the lower incomplete gamma function at half the statistic,
    /// normalized by the log-gamma of half the degree count.
    SeriesBased,
}

/// The conversion decision: a negative statistic is refused before anything
/// else, then a degree count below one; two degrees of freedom select the
/// closed form and every other admissible count the series computation.
pub open spec fn chisqr_method_spec(dof: int, cv_bits: u64) -> Result<ChiSquareMethod, ErrorKind> {
    if is_negative_bits(cv_bits) {
        Err(ErrorKind::InvalidStatistic)
    } else if dof < 1 {
        Err(ErrorKind::InvalidDegreesOfFreedom)
    } else if dof == 2 {
        Ok(ChiSquareMethod::ClosedForm)
    } else {
        Ok(ChiSquareMethod::SeriesBased)
    }
}

/// Decides how (or whether) a chi-square statistic `cv` with `dof` degrees of
/// freedom converts to a p-value. The caller performs the numeric evaluation
/// that the returned method names; this decision itself is exact.
pub fn chisqr_method(dof: usize, cv: &Fp) -> (r: Result<ChiSquareMethod, ErrorKind>)
    ensures
        r == chisqr_method_spec(dof as int, cv@),
{
    if is_negative(cv) {
        return Err(ErrorKind::InvalidStatistic);
    }
    if dof < 1 {
        return Err(ErrorKind::InvalidDegreesOfFreedom);
    }
    if dof == 2 {
        Ok(ChiSquareMethod::ClosedForm)
    } else {
        Ok(ChiSquareMethod::SeriesBased)
    }
}

} // verus!
