use reverse_period::providers::{row_timestamp, BitgetCell, CANDLE_ROW_CELLS};
use reverse_period::text::parse_i64;

fn row(first: BitgetCell, len: usize) -> Vec<BitgetCell> {
    let mut r = vec![first];
    while r.len() < len {
        r.push(BitgetCell::Text("1.0".to_string()));
    }
    r
}

#[test]
fn parses_integers_as_std_does() {
    for s in ["0", "123", "-5", "+7", "00012", "9223372036854775807", "-9223372036854775808", "", "-", "+", "12a", " 1", "1 ", "9223372036854775808", "-9223372036854775809", "99999999999999999999999", "1.5", "--1", "+-1"] {
        assert_eq!(parse_i64(s), s.parse::<i64>().ok(), "input {:?}", s);
    }
}

#[test]
fn short_rows_are_skipped() {
    assert_eq!(CANDLE_ROW_CELLS, 6);
    assert_eq!(row_timestamp(&row(BitgetCell::Text("1700000000000".to_string()), 5)), None);
    assert_eq!(row_timestamp(&Vec::new()), None);
}

#[test]
fn text_timestamps_are_parsed() {
    assert_eq!(row_timestamp(&row(BitgetCell::Text("1700000000000".to_string()), 6)), Some(Ok(1_700_000_000_000)));
    assert_eq!(
        row_timestamp(&row(BitgetCell::Text("17x".to_string()), 7)),
        Some(Err("Failed to parse timestamp string".to_string()))
    );
}

#[test]
fn integer_and_other_cells() {
    assert_eq!(row_timestamp(&row(BitgetCell::Integer(-42), 6)), Some(Ok(-42)));
    assert_eq!(row_timestamp(&row(BitgetCell::Other, 6)), Some(Err("Invalid timestamp type".to_string())));
}
