use vstd::prelude::*;

use crate::chi_square::chisqr_method;
use crate::chi_square::chisqr_method_spec;
use crate::chi_square::ChiSquareMethod;
use crate::fp::is_negative_bits;
use crate::fp::is_valid_p;
use crate::fp::valid_p_bits;
use crate::fp::Fp;
use crate::ErrorKind;

verus! {

/// Fisher's combination decision for a set of `count` trials whose chi-square
/// statistic has the bit pattern `cv_bits`: the degrees of freedom are twice
/// the trial count, so an empty set has none and is refused outright; any
/// other count is converted as the chi-square decision says.
pub open spec fn fisher_method_spec(count: int, cv_bits: u64) -> Result<
    ChiSquareMethod,
    ErrorKind,
> {
    if count == 0 {
        Err(ErrorKind::InvalidDegreesOfFreedom)
    } else {
        chisqr_method_spec(2 * count, cv_bits)
    }
}

/// With exactly one trial, Fisher's method has two degrees of freedom, so
/// every non-negative statistic is converted by the closed form: the combined
/// p-value is the exponential of minus half the statistic, and for the
/// statistic minus twice the log of the single p-value, that exponential
/// returns the p-value itself.
pub proof fn lemma_single_trial_uses_closed_form(cv_bits: u64)
    requires
        !is_negative_bits(cv_bits),
    ensures
        fisher_method_spec(1, cv_bits) == Result::<ChiSquareMethod, ErrorKind>::Ok(
            ChiSquareMethod::ClosedForm,
        ),
{
}

/// One accepted observation: a sample size of at least one, an effect size of
/// any sign, and a p-value in the open interval (0, 1). The three numbers are
/// one record; they are only ever appended or bulk-cleared together.
#[derive(Clone, Copy, Debug, PartialEq, Eq, Structural)]
pub struct Trial {
    pub sample_size: i32,
    pub effect_size: Fp,
    pub p_value: Fp,
}

/// A trial satisfies the set's invariant: the sample size is at least one and
/// the p-value lies strictly between zero and one.
pub open spec fn valid_trial(t: Trial) -> bool {
    t.sample_size >= 1 && valid_p_bits(t.p_value@)
}

/// The accumulated set of trials and the aggregate operations over it. It is
/// the single owner of the data; every derived statistic is recomputed from
/// the stored records.
pub struct MetaAnalysis {
    trials: Vec<Trial>,
}

impl MetaAnalysis {
    /// The set is modelled as the sequence of accepted trials, in order of
    /// acceptance; no computation depends on that order.
    pub closed spec fn view(&self) -> Seq<Trial> {
        self.trials@
    }

    /// Every stored record satisfies the acceptance invariant.
    pub open spec fn wf(&self) -> bool {
        forall|i: int| 0 <= i < self@.len() ==> valid_trial(#[trigger] self@[i])
    }

    /// An empty set.
    pub fn new() -> (r: MetaAnalysis)
        ensures
            r@ =~= Seq::<Trial>::empty(),
            r.wf(),
    {
        MetaAnalysis { trials: Vec::new() }
    }

    /// Validates one observation and, only if both checks pass, appends it.
    /// A sample size below one is rejected first, then a p-value outside the
    /// open interval (0, 1); a rejected observation leaves the set untouched.
    pub fn add_trial(&mut self, sample_size: i32, effect_size: Fp, p_value: Fp) -> (r: Result<
        (),
        ErrorKind,
    >)
        ensures
            sample_size < 1 ==> r == Result::<(), ErrorKind>::Err(ErrorKind::InvalidSampleSize)
                && *final(self) == *old(self),
            sample_size >= 1 && !valid_p_bits(p_value@) ==> r == Result::<(), ErrorKind>::Err(
                ErrorKind::InvalidPValue,
            ) && *final(self) == *old(self),
            sample_size >= 1 && valid_p_bits(p_value@) ==> r == Result::<(), ErrorKind>::Ok(())
                && final(self)@ =~= old(self)@.push(Trial { sample_size, effect_size, p_value }),
            old(self).wf() ==> final(self).wf(),
    {
        if sample_size < 1 {
            return Err(ErrorKind::InvalidSampleSize);
        }
        if !is_valid_p(&p_value) {
            return Err(ErrorKind::InvalidPValue);
        }
        self.trials.push(Trial { sample_size, effect_size, p_value });
        Ok(())
    }

    /// Empties the set. Afterwards the set is exactly the initial state:
    /// no record and a count of zero remain, whatever was stored before.
    pub fn clear(&mut self)
        ensures
            final(self)@ =~= Seq::<Trial>::empty(),
            final(self).wf(),
    {
        self.trials.clear();
    }

    /// The number of accepted trials.
    pub fn count(&self) -> (r: usize)
        ensures
            r == self@.len(),
    {
        self.trials.len()
    }

    /// Decides how the Fisher combined p-value of the current set is to be
    /// computed from the chi-square statistic `chi_square_sum`, the sum of
    /// minus twice the log of each stored p-value, which the caller
    /// accumulates numerically. The degrees of freedom are twice the trial
    /// count; an empty set is refused for having none.
    pub fn combined_p_value_method(&self, chi_square_sum: &Fp) -> (r: Result<
        ChiSquareMethod,
        ErrorKind,
    >)
        requires
            2 * self@.len() <= usize::MAX,
        ensures
            r == fisher_method_spec(self@.len() as int, chi_square_sum@),
    {
        if self.trials.len() == 0 {
            return Err(ErrorKind::InvalidDegreesOfFreedom);
        }
        chisqr_method(2 * self.trials.len(), chi_square_sum)
    }

    /// The record at a position, for the caller to aggregate numerically.
    pub fn trial(&self, i: usize) -> (r: Trial)
        requires
            i < self@.len(),
        ensures
            r == self@[i as int],
    {
        self.trials[i]
    }
}

} // verus!
