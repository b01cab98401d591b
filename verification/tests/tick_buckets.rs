use reverse_period::ticks::{bucket_start_minute, tick_action, TickAction};

#[test]
fn minutes_round_down_to_their_bucket() {
    assert_eq!(bucket_start_minute(0, 5), 0);
    assert_eq!(bucket_start_minute(4, 5), 0);
    assert_eq!(bucket_start_minute(5, 5), 5);
    assert_eq!(bucket_start_minute(59, 15), 45);
    assert_eq!(bucket_start_minute(59, 1), 59);
    assert_eq!(bucket_start_minute(37, 60), 0);
}

#[test]
fn tick_actions() {
    assert_eq!(tick_action(false, false), TickAction::OpenFirst);
    assert_eq!(tick_action(false, true), TickAction::OpenFirst);
    assert_eq!(tick_action(true, true), TickAction::CloseAndOpen);
    assert_eq!(tick_action(true, false), TickAction::Extend);
}
