use vstd::prelude::*;

use crate::types::{DetectionMatrix, ReversePeriodConfig};

verus! {

/// Length of the moving average that the spectral-inversion test compares
/// the close against.
pub const SPECTRAL_SMA_PERIOD: usize = 20;

/// Measurements of the latest candle against the average true range and the
/// signal inputs, each already reduced to the comparison that the detection
/// matrix reads.
#[derive(Debug, Clone, Copy, PartialEq, Eq, Structural)]
pub struct MatrixReadings {
    /// The candle's high-low range is under half the ATR.
    pub narrow_range: bool,
    /// The current volatility lies strictly between 0 and 0.002.
    pub tight_spread: bool,
    /// The candle's body is under a fifth of the ATR.
    pub stalled_move: bool,
    /// The close lies more than 1.5 ATR away from the 20-period mean of closes
    /// (read only when that mean exists).
    pub displaced_from_mean: bool,
    /// The signal confidence is above 0.6.
    pub confident_signal: bool,
    /// The expected P&L is negative.
    pub negative_expectancy: bool,
    /// The current body's direction opposes the two previous bodies' sum.
    pub gradient_reversal: bool,
    /// The body is more than 70% of a nonzero high-low range.
    pub large_body: bool,
    /// The candle closed above its open.
    pub bullish: bool,
}

/// Whether `hour` falls in the London or the New York killzone (both bounds
/// inclusive).
pub open spec fn spec_in_killzone(cfg: ReversePeriodConfig, hour: int) -> bool {
    (cfg.killzone_london_start <= hour && hour <= cfg.killzone_london_end)
        || (cfg.killzone_ny_start <= hour && hour <= cfg.killzone_ny_end)
}

/// Decides whether `hour` falls in one of the configured killzones.
pub fn in_killzone(cfg: &ReversePeriodConfig, hour: u8) -> (b: bool)
    ensures
        b == spec_in_killzone(*cfg, hour as int),
{
    (hour >= cfg.killzone_london_start && hour <= cfg.killzone_london_end)
        || (hour >= cfg.killzone_ny_start && hour <= cfg.killzone_ny_end)
}

/// The detection matrix for a window of `num_candles` candles whose latest
/// candle opened in UTC hour `hour` and measured `r`.
pub open spec fn spec_analyze(
    num_candles: nat,
    hour: u8,
    cfg: ReversePeriodConfig,
    r: MatrixReadings,
) -> DetectionMatrix {
    if num_candles < 2 {
        DetectionMatrix::cleared()
    } else {
        DetectionMatrix {
            lambda1_phase_entrapment: r.narrow_range && r.tight_spread,
            lambda2_temporal_alignment: spec_in_killzone(cfg, hour as int) && r.stalled_move,
            lambda3_spectral_inversion: num_candles >= SPECTRAL_SMA_PERIOD && r.displaced_from_mean,
            lambda4_confluence_collapse: r.confident_signal && r.negative_expectancy,
            lambda5_liquidity_inversion: r.gradient_reversal,
            lambda6_displacement_veto: r.large_body && r.bullish,
        }
    }
}

impl DetectionMatrix {
    /// Runs the core detection matrix over the readings of the latest candle,
    /// which opened in UTC hour `hour` (as `Timelike::hour` gives it).
    /// Fewer than two candles give the cleared matrix.
    pub fn analyze(
        num_candles: usize,
        hour: u8,
        cfg: &ReversePeriodConfig,
        readings: &MatrixReadings,
    ) -> (m: DetectionMatrix)
        ensures
            m == spec_analyze(num_candles as nat, hour, *cfg, *readings),
    {
        if num_candles < 2 {
            return DetectionMatrix::default();
        }
        // Lambda 1: phase entrapment, a narrow candle in a tight spread.
        let lambda1 = readings.narrow_range && readings.tight_spread;
        // Lambda 2: price fails to move inside a killzone.
        let lambda2 = in_killzone(cfg, hour) && readings.stalled_move;
        // Lambda 3: spectral inversion, only once the 20-period mean exists.
        let lambda3 = num_candles >= SPECTRAL_SMA_PERIOD && readings.displaced_from_mean;
        // Lambda 4: confluence collapse, confident signal with negative expectancy.
        let lambda4 = readings.confident_signal && readings.negative_expectancy;
        // Lambda 5: liquidity-field inversion (gradient reversal).
        let lambda5 = readings.gradient_reversal;
        // Lambda 6: displacement veto, a large bullish body.
        let lambda6 = readings.large_body && readings.bullish;
        DetectionMatrix {
            lambda1_phase_entrapment: lambda1,
            lambda2_temporal_alignment: lambda2,
            lambda3_spectral_inversion: lambda3,
            lambda4_confluence_collapse: lambda4,
            lambda5_liquidity_inversion: lambda5,
            lambda6_displacement_veto: lambda6,
        }
    }
}

/// A window of fewer than two candles raises no flag, whatever it measured.
pub proof fn law_short_window_raises_nothing(
    num_candles: nat,
    hour: u8,
    cfg: ReversePeriodConfig,
    r: MatrixReadings,
)
    requires
        num_candles < 2,
    ensures
        spec_analyze(num_candles, hour, cfg, r) == DetectionMatrix::cleared(),
{
}

/// With at least two candles, each flag is exactly its readings: phase
/// entrapment is a narrow range in a tight spread; temporal alignment is a
/// stalled move inside a killzone; spectral inversion is a displaced close once
/// twenty candles exist; confluence collapse is a confident signal with
/// negative expectancy; liquidity inversion is the gradient reversal alone,
/// whatever the candle's direction; the veto is a large bullish body.
pub proof fn law_flags_follow_readings(
    num_candles: nat,
    hour: u8,
    cfg: ReversePeriodConfig,
    r: MatrixReadings,
)
    requires
        num_candles >= 2,
    ensures
        spec_analyze(num_candles, hour, cfg, r).lambda1_phase_entrapment == (r.narrow_range
            && r.tight_spread),
        spec_analyze(num_candles, hour, cfg, r).lambda2_temporal_alignment == (r.stalled_move && (
        (cfg.killzone_london_start <= hour && hour <= cfg.killzone_london_end) || (
        cfg.killzone_ny_start <= hour && hour <= cfg.killzone_ny_end))),
        spec_analyze(num_candles, hour, cfg, r).lambda3_spectral_inversion == (num_candles >= 20
            && r.displaced_from_mean),
        spec_analyze(num_candles, hour, cfg, r).lambda4_confluence_collapse == (r.confident_signal
            && r.negative_expectancy),
        spec_analyze(num_candles, hour, cfg, r).lambda5_liquidity_inversion == r.gradient_reversal,
        spec_analyze(num_candles, hour, cfg, r).lambda6_displacement_veto == (r.large_body
            && r.bullish),
{
}

/// Temporal alignment failure is only ever flagged inside a killzone.
pub proof fn law_temporal_flag_needs_killzone(
    num_candles: nat,
    hour: u8,
    cfg: ReversePeriodConfig,
    r: MatrixReadings,
)
    requires
        spec_analyze(num_candles, hour, cfg, r).lambda2_temporal_alignment,
    ensures
        spec_in_killzone(cfg, hour as int),
{
}

} // verus!
