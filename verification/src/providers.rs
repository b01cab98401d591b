use vstd::prelude::*;

use crate::config::MetaTraderCredentials;
use crate::text::{decimal, law_parse_reads_decimal, parse_i64, spec_parse_i64};

verus! {

broadcast use vstd::string::group_string_axioms;

/// The `data` array of a Bitget candles response: one row of text cells per
/// candle.
#[derive(Debug)]
pub struct BitgetCandleResponse(pub Vec<Vec<String>>);

/// The fewest cells a Bitget row needs to describe a candle: time, open,
/// high, low, close and volume.
pub const CANDLE_ROW_CELLS: usize = 6;

/// A cell of a Bitget candle row, as the timestamp reading sees it: a text,
/// an integer that fits in an `i64`, or anything else.
#[derive(Debug, Clone)]
pub enum BitgetCell {
    Text(String),
    Integer(i64),
    Other,
}

/// The timestamp reading of a row: `None` for a row too short to be a candle
/// (it is skipped), else the timestamp in milliseconds or the message of the
/// error that ends the fetch.
pub open spec fn spec_row_timestamp(row: Seq<BitgetCell>) -> Option<Result<i64, Seq<char>>> {
    if row.len() < CANDLE_ROW_CELLS {
        None
    } else {
        Some(
            match row[0] {
                BitgetCell::Text(t) => match spec_parse_i64(t@) {
                    Some(v) => Ok(v),
                    None => Err("Failed to parse timestamp string"@),
                },
                BitgetCell::Integer(v) => Ok(v),
                BitgetCell::Other => Err("Invalid timestamp type"@),
            },
        )
    }
}

/// The texts of an outcome's error.
pub open spec fn outcome_view(r: Option<Result<i64, String>>) -> Option<Result<i64, Seq<char>>> {
    match r {
        None => None,
        Some(Ok(v)) => Some(Ok(v)),
        Some(Err(e)) => Some(Err(e@)),
    }
}

/// Reads the timestamp of a Bitget candle row: rows of fewer than six cells
/// are skipped (`None`); a text cell must parse as an `i64`, an integer cell
/// is taken as it is, and any other cell is an error.
pub fn row_timestamp(row: &Vec<BitgetCell>) -> (r: Option<Result<i64, String>>)
    ensures
        outcome_view(r) == spec_row_timestamp(row@),
{
    if row.len() < CANDLE_ROW_CELLS {
        return None;
    }
    match &row[0] {
        BitgetCell::Text(t) => match parse_i64(t.as_str()) {
            Some(v) => Some(Ok(v)),
            None => Some(Err("Failed to parse timestamp string".to_string())),
        },
        BitgetCell::Integer(v) => Some(Ok(*v)),
        BitgetCell::Other => Some(Err("Invalid timestamp type".to_string())),
    }
}

/// A row of fewer than six cells is skipped; in a longer row an integer first
/// cell is the timestamp itself, a first cell holding the decimal text of a
/// millisecond count is that count, and a first cell that is neither text nor
/// integer ends the fetch with "Invalid timestamp type".
pub proof fn law_row_timestamps(row: Seq<BitgetCell>, n: nat)
    requires
        n <= 9_223_372_036_854_775_807,
    ensures
        row.len() < 6 ==> spec_row_timestamp(row) is None,
        row.len() >= 6 && (row[0] is Integer) ==> spec_row_timestamp(row) == Some(
            Ok::<i64, Seq<char>>(row[0]->Integer_0),
        ),
        row.len() >= 6 && (row[0] is Text) && row[0]->Text_0@ == decimal(n)
            ==> spec_row_timestamp(row) == Some(Ok::<i64, Seq<char>>(n as i64)),
        row.len() >= 6 && (row[0] is Other) ==> spec_row_timestamp(row) == Some(
            Err::<i64, Seq<char>>("Invalid timestamp type"@),
        ),
{
    law_parse_reads_decimal(n);
}

/// Source of candles from the Bitget futures market.
#[derive(Debug)]
pub struct BitgetProvider {
    /// Contract symbol, e.g. "BTCUSDT".
    pub symbol: String,
    /// Candle granularity, e.g. "1m", "5m", "1H".
    pub interval: String,
}

impl BitgetProvider {
    pub fn new(symbol: &str, interval: &str) -> (p: Self)
        ensures
            p.symbol@ == symbol@,
            p.interval@ == interval@,
    {
        BitgetProvider { symbol: symbol.to_string(), interval: interval.to_string() }
    }
}

/// Source of candles from a MetaTrader account.
pub struct MetaTraderProvider {
    pub credentials: MetaTraderCredentials,
    pub symbol: String,
}

impl MetaTraderProvider {
    pub fn new(creds: MetaTraderCredentials, symbol: &str) -> (p: Self)
        ensures
            p.credentials == creds,
            p.symbol@ == symbol@,
    {
        MetaTraderProvider { credentials: creds, symbol: symbol.to_string() }
    }
}

/// A tick stream for one instrument.
#[derive(Debug)]
pub struct RealtimeStream {
    pub instrument: String,
}

impl RealtimeStream {
    pub fn new(instrument: &str) -> (r: Self)
        ensures
            r.instrument@ == instrument@,
    {
        RealtimeStream { instrument: instrument.to_string() }
    }
}

} // verus!
