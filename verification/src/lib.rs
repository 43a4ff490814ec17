use vstd::prelude::*;

pub mod chi_square;
pub mod format;
pub mod fp;
pub mod gamma;
pub mod meta;

verus! {

/// The error taxonomy of the statistical engine. Every failure a caller can
/// see is one of these recoverable conditions; no operation panics.
#[derive(Clone, Copy, Debug, PartialEq, Eq, Structural)]
pub enum ErrorKind {
    /// A trial's sample size was below one.
    InvalidSampleSize,
    /// A trial's p-value lay outside the open interval (0, 1).
    InvalidPValue,
    /// A chi-square conversion was asked for with fewer than one degree of freedom.
    InvalidDegreesOfFreedom,
    /// A chi-square statistic was negative.
    InvalidStatistic,
    /// The incomplete-gamma series did not converge within its iteration cap.
    ConvergenceFailure,
}

} // verus!
