use reverse_period::engine::{CandleAssessment, EngineStatus, RangeChecks};
use reverse_period::types::SystemState;

fn quiet() -> CandleAssessment {
    CandleAssessment {
        displacement_veto: false,
        spectral_inversion: false,
        manifold_coherent: false,
        distribution: false,
        severity_exceeds: false,
        range: None,
        energy_gate: false,
    }
}

fn firing() -> CandleAssessment {
    CandleAssessment {
        displacement_veto: false,
        spectral_inversion: false,
        manifold_coherent: true,
        distribution: true,
        severity_exceeds: true,
        range: Some(RangeChecks { near_mean: false, is_sweep: true, is_looping: false }),
        energy_gate: true,
    }
}

#[test]
fn new_engine_delivers_undamped() {
    let s = EngineStatus::new();
    assert_eq!(s.system_state, SystemState::Delivery);
    assert!(!s.is_damped);
}

#[test]
fn veto_halts_and_keeps_damping() {
    let mut s = EngineStatus { system_state: SystemState::ReversePeriod, is_damped: true };
    let mut a = firing();
    a.displacement_veto = true;
    assert!(!s.on_candle(&a));
    assert_eq!(s.system_state, SystemState::Halted);
    assert!(s.is_damped);
}

#[test]
fn halt_lasts_one_quiet_candle() {
    let mut s = EngineStatus { system_state: SystemState::Halted, is_damped: false };
    assert!(!s.on_candle(&quiet()));
    assert_eq!(s.system_state, SystemState::Delivery);
}

#[test]
fn full_protocol_triggers_reverse_period() {
    let mut s = EngineStatus { system_state: SystemState::Delivery, is_damped: true };
    assert!(s.on_candle(&firing()));
    assert_eq!(s.system_state, SystemState::ReversePeriod);
    assert!(!s.is_damped);
}

#[test]
fn spectral_inversion_replaces_sweep() {
    let mut s = EngineStatus::new();
    let mut a = firing();
    a.range = Some(RangeChecks { near_mean: false, is_sweep: false, is_looping: false });
    a.spectral_inversion = true;
    assert!(s.on_candle(&a));
    assert_eq!(s.system_state, SystemState::ReversePeriod);
}

#[test]
fn no_sweep_and_no_inversion_changes_nothing() {
    let mut s = EngineStatus::new();
    let mut a = firing();
    a.range = Some(RangeChecks { near_mean: false, is_sweep: false, is_looping: false });
    assert!(!s.on_candle(&a));
    assert_eq!(s, EngineStatus::new());
}

#[test]
fn looping_market_is_a_trap() {
    let mut s = EngineStatus::new();
    let mut a = firing();
    a.range = Some(RangeChecks { near_mean: false, is_sweep: true, is_looping: true });
    assert!(!s.on_candle(&a));
    assert_eq!(s, EngineStatus::new());
}

#[test]
fn missing_box_aborts_protocol() {
    let mut s = EngineStatus::new();
    let mut a = firing();
    a.range = None;
    assert!(!s.on_candle(&a));
    assert_eq!(s, EngineStatus::new());
}

#[test]
fn closed_mandra_gate_damps() {
    let mut s = EngineStatus::new();
    let mut a = firing();
    a.energy_gate = false;
    assert!(!s.on_candle(&a));
    assert_eq!(s.system_state, SystemState::Delivery);
    assert!(s.is_damped);
}

#[test]
fn reverse_period_returns_to_delivery_near_mean() {
    let mut s = EngineStatus { system_state: SystemState::ReversePeriod, is_damped: false };
    let mut a = quiet();
    a.range = Some(RangeChecks { near_mean: false, is_sweep: false, is_looping: false });
    assert!(!s.on_candle(&a));
    assert_eq!(s.system_state, SystemState::ReversePeriod);
    a.range = Some(RangeChecks { near_mean: true, is_sweep: false, is_looping: false });
    assert!(!s.on_candle(&a));
    assert_eq!(s.system_state, SystemState::Delivery);
}

#[test]
fn partial_trigger_does_not_fire() {
    let mut s = EngineStatus::new();
    let mut a = firing();
    a.distribution = false;
    assert!(!s.on_candle(&a));
    assert_eq!(s, EngineStatus::new());
    a = firing();
    a.manifold_coherent = false;
    assert!(!s.on_candle(&a));
    a = firing();
    a.severity_exceeds = false;
    assert!(!s.on_candle(&a));
    assert_eq!(s, EngineStatus::new());
}

#[test]
fn a_run_never_reaches_consolidation() {
    let mut s = EngineStatus::new();
    let mut veto = firing();
    veto.displacement_veto = true;
    let runs = [firing(), quiet(), veto, quiet(), firing(), veto, firing()];
    for a in runs.iter() {
        s.on_candle(a);
        assert_ne!(s.system_state, SystemState::Consolidation);
    }
}
