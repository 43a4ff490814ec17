use meta_analysis::chi_square::chisqr_method;
use meta_analysis::chi_square::ChiSquareMethod;
use meta_analysis::fp::is_negative;
use meta_analysis::fp::Fp;
use meta_analysis::gamma::series_decision;
use meta_analysis::gamma::SeriesDecision;
use meta_analysis::meta::MetaAnalysis;
use meta_analysis::ErrorKind;

fn fp_of(x: f64) -> Fp {
    Fp::from_bits(x.to_bits())
}

fn f64_of(v: &Fp) -> f64 {
    f64::from_bits(v.bits())
}

// The numeric evaluation around the library's decisions, wired exactly as the
// calculator wires it: series terms, logs and exponentials in floating point,
// every branch and stopping decision taken by the library.
fn km(s: f64, z: f64) -> Result<f64, ErrorKind> {
    let mut sum = 1.0;
    let mut nom = 1.0;
    let mut denom = 1.0;
    let mut s = s;
    let mut iterations: usize = 0;
    loop {
        nom *= z;
        s += 1.0;
        denom *= s;
        let tsum = sum + nom / denom;
        iterations += 1;
        match series_decision(&fp_of(tsum - sum), iterations) {
            SeriesDecision::Converged => return Ok(sum),
            SeriesDecision::FailedToConverge => return Err(ErrorKind::ConvergenceFailure),
            SeriesDecision::Continue => sum = tsum,
        }
    }
}

fn log_igf(s: f64, z: f64) -> Result<f64, ErrorKind> {
    if is_negative(&fp_of(z)) {
        return Ok(0.0);
    }
    let sc = z.ln() * s - z - s.ln();
    let k = km(s, z)?;
    Ok(k.ln() + sc)
}

fn chisqr(dof: usize, cv: f64) -> Result<f64, ErrorKind> {
    let method = chisqr_method(dof, &fp_of(cv))?;
    let k: f64 = dof as f64 * 0.5;
    let x = cv * 0.5;
    match method {
        ChiSquareMethod::ClosedForm => Ok((-1.0 * x).exp()),
        ChiSquareMethod::SeriesBased => {
            Ok(1.0 - (log_igf(k, x)? - statrs::function::gamma::ln_gamma(k)).exp())
        }
    }
}

fn p_value(data: &MetaAnalysis) -> Result<f64, ErrorKind> {
    let mut sum: f64 = 0.0;
    let mut i = 0;
    while i < data.count() {
        sum += -2.0 * f64_of(&data.trial(i).p_value).ln();
        i += 1;
    }
    data.combined_p_value_method(&fp_of(sum))?;
    chisqr(2 * data.count(), sum)
}

fn weighted_effect_size(data: &MetaAnalysis) -> f64 {
    let mut numerator: f64 = 0.0;
    let mut denominator: f64 = 0.0;
    let mut i = 0;
    while i < data.count() {
        let trial = data.trial(i);
        numerator += trial.sample_size as f64 * f64_of(&trial.effect_size);
        denominator += trial.sample_size as f64;
        i += 1;
    }
    numerator / denominator
}

#[test]
fn weighted_effect_size_is_the_sample_size_weighted_mean() {
    let mut m = MetaAnalysis::new();
    assert_eq!(m.add_trial(2, fp_of(1.0), fp_of(0.5)), Ok(()));
    assert_eq!(m.add_trial(6, fp_of(3.0), fp_of(0.5)), Ok(()));
    assert_eq!(weighted_effect_size(&m), 2.5);
}

#[test]
fn a_rejected_trial_does_not_change_the_mean() {
    let mut m = MetaAnalysis::new();
    assert_eq!(m.add_trial(2, fp_of(1.0), fp_of(0.5)), Ok(()));
    assert_eq!(m.add_trial(6, fp_of(3.0), fp_of(0.5)), Ok(()));
    assert_eq!(m.add_trial(0, fp_of(100.0), fp_of(0.5)), Err(ErrorKind::InvalidSampleSize));
    assert_eq!(m.count(), 2);
    assert_eq!(weighted_effect_size(&m), 2.5);
}

#[test]
fn weighted_effect_size_of_an_empty_set_is_nan() {
    let m = MetaAnalysis::new();
    assert!(weighted_effect_size(&m).is_nan());
}

#[test]
fn a_single_trial_returns_its_own_p_value() {
    let mut m = MetaAnalysis::new();
    assert_eq!(m.add_trial(10, fp_of(0.5), fp_of(0.05)), Ok(()));
    let p = p_value(&m).unwrap();
    assert!((p - 0.05).abs() < 1e-12, "p = {}", p);
}

#[test]
fn two_even_trials_combine_to_the_four_degree_survival_value() {
    let mut m = MetaAnalysis::new();
    assert_eq!(m.add_trial(10, fp_of(0.5), fp_of(0.5)), Ok(()));
    assert_eq!(m.add_trial(10, fp_of(0.5), fp_of(0.5)), Ok(()));
    let p = p_value(&m).unwrap();
    // chi-square sum is -2(ln 0.5 + ln 0.5) = 2 ln 4, about 2.7726; the
    // survival function of the chi-square distribution with four degrees of
    // freedom at that statistic is exp(-x)(1 + x) at x = ln 4, about 0.5966.
    let x = 4.0f64.ln();
    let expected = (-x).exp() * (1.0 + x);
    assert!((p - expected).abs() < 1e-3, "p = {}, expected = {}", p, expected);
    assert!((p - 0.5966).abs() < 1e-3, "p = {}", p);
}

#[test]
fn a_zero_statistic_at_two_degrees_gives_exactly_one() {
    assert_eq!(chisqr(2, 0.0), Ok(1.0));
}

#[test]
fn chisqr_error_cases_reach_the_pipeline() {
    assert_eq!(chisqr(0, 3.0), Err(ErrorKind::InvalidDegreesOfFreedom));
    assert_eq!(chisqr(2, -1.0), Err(ErrorKind::InvalidStatistic));
}

#[test]
fn the_combined_p_value_of_an_empty_set_is_refused() {
    let m = MetaAnalysis::new();
    assert_eq!(p_value(&m), Err(ErrorKind::InvalidDegreesOfFreedom));
}

#[test]
fn the_series_converges_on_ordinary_statistics() {
    // six trials with p = 0.3: twelve degrees of freedom, series based
    let mut m = MetaAnalysis::new();
    for _ in 0..6 {
        assert_eq!(m.add_trial(10, fp_of(1.0), fp_of(0.3)), Ok(()));
    }
    let p = p_value(&m).unwrap();
    assert!(p > 0.0 && p < 1.0, "p = {}", p);
    // the same statistic fed straight into the conversion agrees
    let sum = -2.0 * 6.0 * 0.3f64.ln();
    let direct = chisqr(12, sum).unwrap();
    assert!((p - direct).abs() < 1e-12);
}
