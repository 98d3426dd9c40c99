//! Calls for commodity data.

use vstd::prelude::*;
use crate::request::{
    ApiRequest, history_query, history_query_view, make_plain_call, make_symbol_call, opt_view,
    plain_call, symbol_call,
};

verus! {

/// Calls for commodity data.
pub struct Commodities;

impl Commodities {
    /// Lists every available commodity.
    pub fn list() -> (r: ApiRequest)
        ensures
            r@ == plain_call("symbol/available-commodities"@),
    {
        make_plain_call("symbol/available-commodities")
    }

    /// Quotes one commodity when `symbol` is given, else every commodity.
    pub fn quote(symbol: Option<&str>) -> (r: ApiRequest)
        ensures
            r@ == (match symbol {
                Some(s) => symbol_call("quote"@, s@, None),
                None => plain_call("quotes/commodity"@),
            }),
    {
        match symbol {
            Some(s) => make_symbol_call("quote", s, None),
            None => make_plain_call("quotes/commodity"),
        }
    }

    /// Historical prices of one commodity over an optional date range, series type
    /// and number of points.
    pub fn history(
        symbol: &str,
        start_date: Option<&str>,
        end_date: Option<&str>,
        data_type: Option<&str>,
        limit: Option<i32>,
    ) -> (r: ApiRequest)
        ensures
            r@ == symbol_call(
                "historical-price-full/commodity"@,
                symbol@,
                Some(history_query_view(opt_view(start_date), opt_view(end_date), opt_view(data_type), limit)),
            ),
    {
        let q = history_query(start_date, end_date, data_type, limit);
        make_symbol_call("historical-price-full/commodity", symbol, Some(q))
    }
}

} // verus!
