//! Building the query that lists the trades of the account.

use vstd::prelude::*;
use crate::protocol::list_account_trades::types::{
    text_of, utc_debug, utc_debug_text, ListAccountTradesParams, ListAccountTradesRequest,
};

verus! {

impl ListAccountTradesRequest {
    /// The text of the start of the range, if the request has a range and
    /// the calendar covers its start.
    pub open spec fn range_start_text(&self) -> Option<Seq<char>> {
        match self.range {
            Some(range) => utc_debug_text(range.start as int),
            None => None,
        }
    }

    /// The text of the end of the range, if the request has a range and the
    /// calendar covers its end.
    pub open spec fn range_stop_text(&self) -> Option<Seq<char>> {
        match self.range {
            Some(range) => utc_debug_text(range.stop as int),
            None => None,
        }
    }

    /// The parameters of the query for this request: cursor and limit as
    /// they are, the market by its name, and the two ends of the range as
    /// text.
    pub fn make_query(&self) -> (params: ListAccountTradesParams)
        ensures
            text_of(params.before) == text_of(self.before),
            params.limit == self.limit,
            text_of(params.market_name) == Some(self.market.spec_market_name()),
            text_of(params.range_start) == self.range_start_text(),
            text_of(params.range_stop) == self.range_stop_text(),
    {
        let before = match &self.before {
            Some(cursor) => Some(cursor.clone()),
            None => None,
        };
        let range_start = match &self.range {
            Some(range) => utc_debug(range.start),
            None => None,
        };
        let range_stop = match &self.range {
            Some(range) => utc_debug(range.stop),
            None => None,
        };
        ListAccountTradesParams {
            before,
            limit: self.limit,
            market_name: Some(self.market.market_name()),
            range_start,
            range_stop,
        }
    }
}

} // verus!
