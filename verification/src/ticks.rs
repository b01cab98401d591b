use vstd::prelude::*;

verus! {

/// The first minute of the `interval_minutes`-minute bucket that `minute`
/// falls in, counting buckets from the top of the hour.
pub open spec fn spec_bucket_start(minute: nat, interval_minutes: nat) -> nat {
    (minute / interval_minutes) * interval_minutes
}

/// Rounds `minute` down to the start of its bucket.
pub fn bucket_start_minute(minute: u32, interval_minutes: u32) -> (m: u32)
    requires
        interval_minutes > 0,
    ensures
        m as nat == spec_bucket_start(minute as nat, interval_minutes as nat),
        m <= minute,
        minute < m + interval_minutes,
        m % interval_minutes == 0,
{
    let q = minute / interval_minutes;
    proof {
        law_bucket_start_is_aligned(minute as nat, interval_minutes as nat);
    }
    q * interval_minutes
}

/// The bucket start is the multiple of the interval at or just below the
/// minute: a multiple of the interval, at most the minute, and less than one
/// interval before it.
pub proof fn law_bucket_start_is_aligned(minute: nat, interval_minutes: nat)
    requires
        interval_minutes > 0,
    ensures
        spec_bucket_start(minute, interval_minutes) % interval_minutes == 0,
        spec_bucket_start(minute, interval_minutes) <= minute,
        minute < spec_bucket_start(minute, interval_minutes) + interval_minutes,
{
    let q = minute / interval_minutes;
    assert(q * interval_minutes <= minute && minute < q * interval_minutes + interval_minutes)
        by (nonlinear_arith)
        requires
            q == minute / interval_minutes,
            interval_minutes > 0,
    ;
    assert((q * interval_minutes) % interval_minutes == 0) by (nonlinear_arith)
        requires
            interval_minutes > 0,
    ;
}

/// What a tick does to the candle being built.
#[derive(Debug, Clone, Copy, PartialEq, Eq, Structural)]
pub enum TickAction {
    /// No candle is being built: the tick opens the first one.
    OpenFirst,
    /// The tick falls in a later bucket: the current candle is complete and
    /// the tick opens the next one.
    CloseAndOpen,
    /// The tick falls in the current candle's bucket (or an earlier one): it
    /// extends the current candle.
    Extend,
}

/// What a tick does, given whether a candle is being built and whether the
/// tick's bucket starts after that candle's.
pub open spec fn tick_action_spec(has_current: bool, bucket_is_later: bool) -> TickAction {
    if !has_current {
        TickAction::OpenFirst
    } else if bucket_is_later {
        TickAction::CloseAndOpen
    } else {
        TickAction::Extend
    }
}

/// Decides what a tick does, given whether a candle is being built and
/// whether the tick's bucket starts after that candle's.
pub fn tick_action(has_current: bool, bucket_is_later: bool) -> (a: TickAction)
    ensures
        a == (if !has_current {
            TickAction::OpenFirst
        } else if bucket_is_later {
            TickAction::CloseAndOpen
        } else {
            TickAction::Extend
        }),
        a == tick_action_spec(has_current, bucket_is_later),
{
    if !has_current {
        TickAction::OpenFirst
    } else if bucket_is_later {
        TickAction::CloseAndOpen
    } else {
        TickAction::Extend
    }
}

/// A tick closes a candle only when one is being built and the tick's bucket
/// starts after it; it opens a candle exactly when it does not extend one.
pub proof fn law_tick_closes_only_later_buckets(has_current: bool, bucket_is_later: bool)
    ensures
        (tick_action_spec(has_current, bucket_is_later) == TickAction::CloseAndOpen) == (
        has_current && bucket_is_later),
        (tick_action_spec(has_current, bucket_is_later) == TickAction::Extend) == (has_current
            && !bucket_is_later),
{
}

} // verus!
