use vstd::prelude::*;

use crate::types::SystemState;

verus! {

/// Readings of the latest candle against the structural range ("the box"),
/// available only when the range could be compiled.
#[derive(Debug, Clone, Copy, PartialEq, Eq, Structural)]
pub struct RangeChecks {
    /// The close lies within a tenth of the box height of the box mean.
    pub near_mean: bool,
    /// A wick longer than 1.5 ATR with the close back inside the box.
    pub is_sweep: bool,
    /// The close moved less than one ATR over the last five candles.
    pub is_looping: bool,
}

/// Everything the engine's decision reads about one new candle, each item
/// already reduced to the comparison that the decision needs.
#[derive(Debug, Clone, Copy, PartialEq, Eq, Structural)]
pub struct CandleAssessment {
    /// Lambda 6 of the detection matrix: the displacement veto.
    pub displacement_veto: bool,
    /// Lambda 3 of the detection matrix: spectral inversion.
    pub spectral_inversion: bool,
    /// The adelic manifold validator accepted close, volatility and volume.
    pub manifold_coherent: bool,
    /// The current volatility is under 0.001 (distribution, not expansion).
    pub distribution: bool,
    /// The severity score is above 0.6.
    pub severity_exceeds: bool,
    /// The structural range checks, or `None` when no range could be compiled.
    pub range: Option<RangeChecks>,
    /// The Mandra gate: at least two candles and non-decreasing kinetic energy.
    pub energy_gate: bool,
}

/// The trigger of the reverse-period protocol: coherent, in distribution and
/// severe enough.
pub open spec fn trigger_fired(a: CandleAssessment) -> bool {
    a.manifold_coherent && a.distribution && a.severity_exceeds
}

/// The engine's control state: its phase and whether damping is applied.
#[derive(Debug, Clone, Copy, PartialEq, Eq, Structural)]
pub struct EngineStatus {
    pub system_state: SystemState,
    pub is_damped: bool,
}

/// The outcome of the reverse-period protocol on a fired trigger: the new
/// status and whether a reversal was triggered.
pub open spec fn spec_protocol(s: EngineStatus, a: CandleAssessment) -> (EngineStatus, bool) {
    match a.range {
        None => (s, false),
        Some(rc) => {
            if !rc.is_sweep && !a.spectral_inversion {
                (s, false)
            } else if rc.is_looping {
                (s, false)
            } else if !a.energy_gate {
                (EngineStatus { system_state: s.system_state, is_damped: true }, false)
            } else {
                (EngineStatus { system_state: SystemState::ReversePeriod, is_damped: false }, true)
            }
        },
    }
}

/// One decision step of the engine on a new candle: the new status and
/// whether the reverse-period protocol triggered.
pub open spec fn spec_step(s: EngineStatus, a: CandleAssessment) -> (EngineStatus, bool) {
    if a.displacement_veto {
        (EngineStatus { system_state: SystemState::Halted, is_damped: s.is_damped }, false)
    } else if trigger_fired(a) {
        spec_protocol(s, a)
    } else if s.system_state == SystemState::ReversePeriod {
        match a.range {
            Some(rc) if rc.near_mean => (
                EngineStatus { system_state: SystemState::Delivery, is_damped: s.is_damped },
                false,
            ),
            _ => (s, false),
        }
    } else if s.system_state == SystemState::Halted {
        (EngineStatus { system_state: SystemState::Delivery, is_damped: s.is_damped }, false)
    } else {
        (s, false)
    }
}

/// The status after a run of candles, one assessment each, in order.
pub open spec fn spec_run(s: EngineStatus, run: Seq<CandleAssessment>) -> EngineStatus
    decreases run.len(),
{
    if run.len() == 0 {
        s
    } else {
        spec_step(spec_run(s, run.drop_last()), run.last()).0
    }
}

impl EngineStatus {
    /// The status of a fresh engine: delivering, not damped.
    pub open spec fn initial() -> EngineStatus {
        EngineStatus { system_state: SystemState::Delivery, is_damped: false }
    }

    pub fn new() -> (s: EngineStatus)
        ensures
            s == EngineStatus::initial(),
    {
        EngineStatus { system_state: SystemState::Delivery, is_damped: false }
    }

    /// The reverse-period protocol, run when the trigger fired: box, sweep or
    /// spectral inversion, loop check, Mandra gate, then the transition.
    fn execute_reverse_period_protocol(&mut self, a: &CandleAssessment) -> (triggered: bool)
        ensures
            (*final(self), triggered) == spec_protocol(*old(self), *a),
    {
        let rc = match a.range {
            Some(rc) => rc,
            None => return false,
        };
        if !rc.is_sweep && !a.spectral_inversion {
            return false;
        }
        if rc.is_looping {
            return false;
        }
        if !a.energy_gate {
            self.is_damped = true;
            return false;
        }
        self.system_state = SystemState::ReversePeriod;
        self.is_damped = false;
        true
    }

    /// Decides the engine's reaction to a new candle; returns whether the
    /// reverse-period protocol triggered on it.
    pub fn on_candle(&mut self, a: &CandleAssessment) -> (triggered: bool)
        ensures
            (*final(self), triggered) == spec_step(*old(self), *a),
    {
        if a.displacement_veto {
            self.system_state = SystemState::Halted;
            return false;
        }
        let trigger = a.manifold_coherent && a.distribution && a.severity_exceeds;
        if trigger {
            self.execute_reverse_period_protocol(a)
        } else if self.system_state == SystemState::ReversePeriod {
            if let Some(rc) = a.range {
                if rc.near_mean {
                    self.system_state = SystemState::Delivery;
                }
            }
            false
        } else if self.system_state == SystemState::Halted {
            self.system_state = SystemState::Delivery;
            false
        } else {
            false
        }
    }
}

/// The displacement veto always halts the engine, triggers nothing and leaves
/// the damping flag as it was.
pub proof fn law_veto_halts(s: EngineStatus, a: CandleAssessment)
    requires
        a.displacement_veto,
    ensures
        spec_step(s, a) == (
        EngineStatus { system_state: SystemState::Halted, is_damped: s.is_damped },
        false,
        ),
{
}

/// A halt lasts one candle: without a veto and without a fired trigger the
/// halted engine returns to delivery.
pub proof fn law_halt_is_transient(s: EngineStatus, a: CandleAssessment)
    requires
        s.system_state == SystemState::Halted,
        !a.displacement_veto,
        !trigger_fired(a),
    ensures
        spec_step(s, a).0.system_state == SystemState::Delivery,
{
}

/// Back to value: in the reverse period, without a veto or a fired trigger,
/// a close near the box mean returns the engine to delivery, and otherwise it
/// stays in the reverse period.
pub proof fn law_return_to_value(s: EngineStatus, a: CandleAssessment)
    requires
        s.system_state == SystemState::ReversePeriod,
        !a.displacement_veto,
        !trigger_fired(a),
    ensures
        spec_step(s, a).0.system_state == (if a.range matches Some(rc) && rc.near_mean {
            SystemState::Delivery
        } else {
            SystemState::ReversePeriod
        }),
        spec_step(s, a).0.is_damped == s.is_damped,
{
}

/// A quiet candle (no veto, no fired trigger) leaves an engine that is
/// neither in the reverse period nor halted exactly as it was.
pub proof fn law_quiet_candle_keeps_status(s: EngineStatus, a: CandleAssessment)
    requires
        !a.displacement_veto,
        !(a.manifold_coherent && a.distribution && a.severity_exceeds),
        s.system_state != SystemState::ReversePeriod,
        s.system_state != SystemState::Halted,
    ensures
        spec_step(s, a) == (s, false),
{
}

/// The engine is halted after a candle only through the displacement veto, or
/// by staying halted when a fired trigger's protocol changes nothing.
pub proof fn law_halt_only_on_veto(s: EngineStatus, a: CandleAssessment)
    ensures
        spec_step(s, a).0.system_state == SystemState::Halted ==> (a.displacement_veto || (
        s.system_state == SystemState::Halted && a.manifold_coherent && a.distribution
            && a.severity_exceeds)),
{
}

/// A fired trigger whose protocol stops before the Mandra gate (no box, no
/// sweep and no spectral inversion, or a looping market) changes nothing.
pub proof fn law_aborted_protocol_keeps_status(s: EngineStatus, a: CandleAssessment)
    requires
        !a.displacement_veto,
        a.manifold_coherent && a.distribution && a.severity_exceeds,
        a.range is None || (a.range matches Some(rc) && ((!rc.is_sweep && !a.spectral_inversion)
            || rc.is_looping)),
    ensures
        spec_step(s, a) == (s, false),
{
}

/// A fired trigger that passes box, sweep (or spectral inversion) and loop
/// check but meets a closed Mandra gate damps the engine and keeps its phase.
pub proof fn law_closed_gate_damps(s: EngineStatus, a: CandleAssessment)
    requires
        !a.displacement_veto,
        a.manifold_coherent && a.distribution && a.severity_exceeds,
        a.range matches Some(rc) && (rc.is_sweep || a.spectral_inversion) && !rc.is_looping,
        !a.energy_gate,
    ensures
        spec_step(s, a) == (
        EngineStatus { system_state: s.system_state, is_damped: true },
        false,
        ),
{
}

/// Every gate of the reverse-period protocol passes on `a`.
pub open spec fn reversal_gates_pass(a: CandleAssessment) -> bool {
    &&& !a.displacement_veto
    &&& trigger_fired(a)
    &&& a.range is Some
    &&& a.range->0.is_sweep || a.spectral_inversion
    &&& !a.range->0.is_looping
    &&& a.energy_gate
}

/// A reversal triggers exactly when every gate of the protocol passes: no
/// veto, a fired trigger, a compiled box, a sweep or a spectral inversion, no
/// loop, and an open Mandra gate; the engine is then in the reverse period and
/// undamped.
pub proof fn law_reversal_needs_every_gate(s: EngineStatus, a: CandleAssessment)
    ensures
        spec_step(s, a).1 <==> reversal_gates_pass(a),
        spec_step(s, a).1 ==> spec_step(s, a).0.system_state == SystemState::ReversePeriod,
        spec_step(s, a).1 ==> !spec_step(s, a).0.is_damped,
{
}

/// The engine only enters the reverse period through a triggered reversal.
pub proof fn law_reverse_period_entered_only_by_trigger(s: EngineStatus, a: CandleAssessment)
    requires
        s.system_state != SystemState::ReversePeriod,
        spec_step(s, a).0.system_state == SystemState::ReversePeriod,
    ensures
        spec_step(s, a).1,
{
}

/// Damping changes only on a fired trigger whose protocol reached the Mandra
/// gate: a closed gate sets it, a triggered reversal clears it.
pub proof fn law_damping_changes_only_at_gate(s: EngineStatus, a: CandleAssessment)
    requires
        spec_step(s, a).0.is_damped != s.is_damped,
    ensures
        !a.displacement_veto,
        trigger_fired(a),
        (a.range is Some),
        !a.range->0.is_looping,
        a.range->0.is_sweep || a.spectral_inversion,
        spec_step(s, a).0.is_damped == !a.energy_gate,
{
}

/// The engine never moves into consolidation by itself: from any status that
/// is not consolidation, no run of candles reaches it.
pub proof fn law_never_enters_consolidation(s: EngineStatus, run: Seq<CandleAssessment>)
    requires
        s.system_state != SystemState::Consolidation,
    ensures
        spec_run(s, run).system_state != SystemState::Consolidation,
    decreases run.len(),
{
    if run.len() > 0 {
        law_never_enters_consolidation(s, run.drop_last());
    }
}

} // verus!
