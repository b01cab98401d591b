use reverse_period::detectors::{in_killzone, MatrixReadings, SPECTRAL_SMA_PERIOD};
use reverse_period::types::{DetectionMatrix, ReversePeriodConfig};

fn config() -> ReversePeriodConfig {
    ReversePeriodConfig {
        lookback_20: 20,
        lookback_40: 40,
        lookback_60: 60,
        atr_period: 14,
        killzone_london_start: 8,
        killzone_london_end: 11,
        killzone_ny_start: 13,
        killzone_ny_end: 16,
    }
}

fn all_true() -> MatrixReadings {
    MatrixReadings {
        narrow_range: true,
        tight_spread: true,
        stalled_move: true,
        displaced_from_mean: true,
        confident_signal: true,
        negative_expectancy: true,
        gradient_reversal: true,
        large_body: true,
        bullish: true,
    }
}

fn all_false() -> MatrixReadings {
    MatrixReadings {
        narrow_range: false,
        tight_spread: false,
        stalled_move: false,
        displaced_from_mean: false,
        confident_signal: false,
        negative_expectancy: false,
        gradient_reversal: false,
        large_body: false,
        bullish: false,
    }
}

#[test]
fn default_matrix_is_cleared() {
    let m = DetectionMatrix::default();
    assert!(!m.lambda1_phase_entrapment);
    assert!(!m.lambda2_temporal_alignment);
    assert!(!m.lambda3_spectral_inversion);
    assert!(!m.lambda4_confluence_collapse);
    assert!(!m.lambda5_liquidity_inversion);
    assert!(!m.lambda6_displacement_veto);
}

#[test]
fn fewer_than_two_candles_raise_nothing() {
    let cfg = config();
    assert_eq!(DetectionMatrix::analyze(0, 9, &cfg, &all_true()), DetectionMatrix::default());
    assert_eq!(DetectionMatrix::analyze(1, 9, &cfg, &all_true()), DetectionMatrix::default());
}

#[test]
fn killzone_bounds_are_inclusive() {
    let cfg = config();
    assert!(!in_killzone(&cfg, 7));
    assert!(in_killzone(&cfg, 8));
    assert!(in_killzone(&cfg, 11));
    assert!(!in_killzone(&cfg, 12));
    assert!(in_killzone(&cfg, 13));
    assert!(in_killzone(&cfg, 16));
    assert!(!in_killzone(&cfg, 17));
    assert!(!in_killzone(&cfg, 0));
}

#[test]
fn every_flag_raised_with_enough_candles_in_a_killzone() {
    let m = DetectionMatrix::analyze(60, 9, &config(), &all_true());
    assert!(m.lambda1_phase_entrapment);
    assert!(m.lambda2_temporal_alignment);
    assert!(m.lambda3_spectral_inversion);
    assert!(m.lambda4_confluence_collapse);
    assert!(m.lambda5_liquidity_inversion);
    assert!(m.lambda6_displacement_veto);
}

#[test]
fn temporal_alignment_needs_killzone() {
    let m = DetectionMatrix::analyze(60, 12, &config(), &all_true());
    assert!(!m.lambda2_temporal_alignment);
    assert!(m.lambda1_phase_entrapment);
}

#[test]
fn spectral_inversion_needs_twenty_candles() {
    assert_eq!(SPECTRAL_SMA_PERIOD, 20);
    let m19 = DetectionMatrix::analyze(19, 9, &config(), &all_true());
    assert!(!m19.lambda3_spectral_inversion);
    let m20 = DetectionMatrix::analyze(20, 9, &config(), &all_true());
    assert!(m20.lambda3_spectral_inversion);
}

#[test]
fn each_flag_needs_both_of_its_readings() {
    let cfg = config();
    let mut r = all_false();
    r.narrow_range = true;
    r.confident_signal = true;
    r.large_body = true;
    let m = DetectionMatrix::analyze(30, 9, &cfg, &r);
    assert!(!m.lambda1_phase_entrapment);
    assert!(!m.lambda4_confluence_collapse);
    assert!(!m.lambda6_displacement_veto);
    r.tight_spread = true;
    r.negative_expectancy = true;
    r.bullish = true;
    let m = DetectionMatrix::analyze(30, 9, &cfg, &r);
    assert!(m.lambda1_phase_entrapment);
    assert!(m.lambda4_confluence_collapse);
    assert!(m.lambda6_displacement_veto);
    assert!(!m.lambda5_liquidity_inversion);
}

#[test]
fn killzone_read_from_the_hour() {
    let mut r = all_false();
    r.stalled_move = true;
    let cfg = config();
    assert!(DetectionMatrix::analyze(30, 14, &cfg, &r).lambda2_temporal_alignment);
    assert!(!DetectionMatrix::analyze(30, 12, &cfg, &r).lambda2_temporal_alignment);
    assert!(!DetectionMatrix::analyze(30, 23, &cfg, &r).lambda2_temporal_alignment);
}
