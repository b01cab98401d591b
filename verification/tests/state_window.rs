use reverse_period::state::State;

#[test]
fn new_window_is_empty() {
    let s: State<u32> = State::new(3);
    assert_eq!(s.max_size, 3);
    assert!(s.get_candles().is_empty());
}

#[test]
fn push_within_capacity_keeps_arrival_order() {
    let mut s = State::new(3);
    s.push(1);
    s.push(2);
    assert_eq!(s.get_candles(), vec![1, 2]);
}

#[test]
fn full_window_drops_oldest() {
    let mut s = State::new(3);
    for i in 1..=5 {
        s.push(i);
    }
    assert_eq!(s.get_candles(), vec![3, 4, 5]);
    assert_eq!(s.candles.len(), 3);
}

#[test]
fn window_of_one_keeps_latest_only() {
    let mut s = State::new(1);
    s.push("a".to_string());
    s.push("b".to_string());
    assert_eq!(s.get_candles(), vec!["b".to_string()]);
}

#[test]
fn zero_capacity_window_never_evicts() {
    let mut s = State::new(0);
    s.push(7);
    s.push(8);
    s.push(9);
    assert_eq!(s.get_candles(), vec![7, 8, 9]);
}

#[test]
fn hundred_candle_window_keeps_last_hundred() {
    let mut s = State::new(100);
    for i in 0..250u32 {
        s.push(i);
    }
    let v = s.get_candles();
    assert_eq!(v.len(), 100);
    assert_eq!(v[0], 150);
    assert_eq!(v[99], 249);
}
