//! Calls for market index data.

use vstd::prelude::*;
use crate::request::{
    ApiRequest, history_query, history_query_view, make_plain_call, make_symbol_call, opt_view,
    plain_call, symbol_call,
};

verus! {

/// Calls for market index data.
pub struct Index;

impl Index {
    /// Lists every available index.
    pub fn list() -> (r: ApiRequest)
        ensures
            r@ == plain_call("symbol/available-indexes"@),
    {
        make_plain_call("symbol/available-indexes")
    }

    /// Quotes one index when `symbol` is given, else every index.
    pub fn quote(symbol: Option<&str>) -> (r: ApiRequest)
        ensures
            r@ == (match symbol {
                Some(s) => symbol_call("quote"@, s@, None),
                None => plain_call("quotes/index"@),
            }),
    {
        match symbol {
            Some(s) => make_symbol_call("quote", s, None),
            None => make_plain_call("quotes/index"),
        }
    }

    /// Historical prices of one index over an optional date range, series type
    /// and number of points.
    pub fn history(
        symbol: &str,
        start_date: Option<&str>,
        end_date: Option<&str>,
        data_type: Option<&str>,
        limit: Option<i32>,
    ) -> (r: ApiRequest)
        ensures
            r@ == symbol_call(
                "historical-price-full/index"@,
                symbol@,
                Some(history_query_view(opt_view(start_date), opt_view(end_date), opt_view(data_type), limit)),
            ),
    {
        let q = history_query(start_date, end_date, data_type, limit);
        make_symbol_call("historical-price-full/index", symbol, Some(q))
    }
}

} // verus!
