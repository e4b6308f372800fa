//! The request for the trades of the account.

use vstd::prelude::*;
use chrono::{DateTime, Utc};
use crate::types::Market;

verus! {

/// The text that the debug format of `chrono::DateTime<Utc>` gives for the
/// moment that lies the given number of milliseconds after the start of 1970
/// (before it, if negative), as in `2020-01-31T12:00:00Z`; `None` where the
/// moment is outside the years that the calendar library covers.
pub uninterp spec fn utc_debug_text(millis: int) -> Option<Seq<char>>;

/// Calls `DateTime::<Utc>::from_timestamp_millis` and formats the moment with
/// the debug format. The text depends on the number alone.
#[verifier::external_body]
pub(crate) fn utc_debug(millis: i64) -> (text: Option<String>)
    ensures
        text_of(text) == utc_debug_text(millis as int),
{
    match DateTime::<Utc>::from_timestamp_millis(millis) {
        Some(moment) => Some(format!("{:?}", moment)),
        None => None,
    }
}

/// A span of time. Both ends are moments in universal time, counted in
/// milliseconds from the start of 1970.
#[derive(Clone, Copy, Debug, PartialEq, Eq, Structural)]
pub struct DateTimeRange {
    pub start: i64,
    pub stop: i64,
}

/// A request for the trades of the account on one market, optionally before
/// a page cursor, up to a limit, and within a span of time.
#[derive(Clone, Debug)]
pub struct ListAccountTradesRequest {
    pub market: Market,
    pub before: Option<String>,
    pub limit: Option<i64>,
    pub range: Option<DateTimeRange>,
}

/// The parameters of the query, as they go on the wire.
#[derive(Clone, Debug)]
pub struct ListAccountTradesParams {
    pub before: Option<String>,
    pub limit: Option<i64>,
    pub market_name: Option<String>,
    pub range_start: Option<String>,
    pub range_stop: Option<String>,
}

/// The contents of an optional string.
pub open spec fn text_of(s: Option<String>) -> Option<Seq<char>> {
    match s {
        Some(s) => Some(s@),
        None => None,
    }
}

} // verus!
