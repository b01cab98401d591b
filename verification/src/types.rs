use vstd::prelude::*;

verus! {

/// Current phase of the system.
#[derive(Debug, Clone, Copy, PartialEq, Eq, Structural)]
pub enum SystemState {
    /// Trending phase.
    Delivery,
    /// Chop / range.
    Consolidation,
    /// Active reversal trade.
    ReversePeriod,
    /// Veto or system error.
    Halted,
}

/// The six lambda flags of the core detection matrix.
#[derive(Debug, Clone, Copy, PartialEq, Eq, Structural)]
pub struct DetectionMatrix {
    pub lambda1_phase_entrapment: bool,
    pub lambda2_temporal_alignment: bool,
    pub lambda3_spectral_inversion: bool,
    pub lambda4_confluence_collapse: bool,
    pub lambda5_liquidity_inversion: bool,
    /// Veto: `true` means halt.
    pub lambda6_displacement_veto: bool,
}

impl DetectionMatrix {
    /// The matrix with every flag cleared.
    pub open spec fn cleared() -> DetectionMatrix {
        DetectionMatrix {
            lambda1_phase_entrapment: false,
            lambda2_temporal_alignment: false,
            lambda3_spectral_inversion: false,
            lambda4_confluence_collapse: false,
            lambda5_liquidity_inversion: false,
            lambda6_displacement_veto: false,
        }
    }
}

impl Default for DetectionMatrix {
    fn default() -> (m: DetectionMatrix)
        ensures
            m == DetectionMatrix::cleared(),
    {
        DetectionMatrix {
            lambda1_phase_entrapment: false,
            lambda2_temporal_alignment: false,
            lambda3_spectral_inversion: false,
            lambda4_confluence_collapse: false,
            lambda5_liquidity_inversion: false,
            lambda6_displacement_veto: false,
        }
    }
}

/// The integer part of the engine configuration: the lookback windows, the
/// ATR period and the two killzones (UTC hours, inclusive bounds).
#[derive(Debug, Clone, Copy, PartialEq, Eq, Structural)]
pub struct ReversePeriodConfig {
    pub lookback_20: usize,
    pub lookback_40: usize,
    pub lookback_60: usize,
    pub atr_period: usize,
    pub killzone_london_start: u8,
    pub killzone_london_end: u8,
    pub killzone_ny_start: u8,
    pub killzone_ny_end: u8,
}

} // verus!
