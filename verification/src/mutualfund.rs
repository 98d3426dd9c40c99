//! Calls for mutual fund data.

use vstd::prelude::*;
use crate::request::{
    ApiRequest, history_query, history_query_view, make_plain_call, make_symbol_call, opt_view,
    plain_call, symbol_call,
};

verus! {

/// Calls for mutual fund data.
pub struct MutualFund;

impl MutualFund {
    /// Lists every available mutual fund.
    pub fn list() -> (r: ApiRequest)
        ensures
            r@ == plain_call("symbol/available-mutual-funds"@),
    {
        make_plain_call("symbol/available-mutual-funds")
    }

    /// Quotes one mutual fund when `symbol` is given, else every mutual fund.
    pub fn quote(symbol: Option<&str>) -> (r: ApiRequest)
        ensures
            r@ == (match symbol {
                Some(s) => symbol_call("quote"@, s@, None),
                None => plain_call("quotes/mutual_fund"@),
            }),
    {
        match symbol {
            Some(s) => make_symbol_call("quote", s, None),
            None => make_plain_call("quotes/mutual_fund"),
        }
    }

    /// Historical prices of one mutual fund over an optional date range, series type
    /// and number of points.
    pub fn history(
        symbol: &str,
        start_date: Option<&str>,
        end_date: Option<&str>,
        data_type: Option<&str>,
        limit: Option<i32>,
    ) -> (r: ApiRequest)
        ensures
            r@ == symbol_call(
                "historical-price-full/mutual_fund"@,
                symbol@,
                Some(history_query_view(opt_view(start_date), opt_view(end_date), opt_view(data_type), limit)),
            ),
    {
        let q = history_query(start_date, end_date, data_type, limit);
        make_symbol_call("historical-price-full/mutual_fund", symbol, Some(q))
    }

    /// Dividend history of one mutual fund.
    pub fn dividend_history(
        symbol: &str,
        start_date: Option<&str>,
        end_date: Option<&str>,
        data_type: Option<&str>,
        limit: Option<i32>,
    ) -> (r: ApiRequest)
        ensures
            r@ == symbol_call(
                "historical-price-full/stock_dividend"@,
                symbol@,
                Some(history_query_view(opt_view(start_date), opt_view(end_date), opt_view(data_type), limit)),
            ),
    {
        let q = history_query(start_date, end_date, data_type, limit);
        make_symbol_call("historical-price-full/stock_dividend", symbol, Some(q))
    }

    /// Split history of one mutual fund.
    pub fn split_history(
        symbol: &str,
        start_date: Option<&str>,
        end_date: Option<&str>,
        data_type: Option<&str>,
        limit: Option<i32>,
    ) -> (r: ApiRequest)
        ensures
            r@ == symbol_call(
                "historical-price-full/stock_split"@,
                symbol@,
                Some(history_query_view(opt_view(start_date), opt_view(end_date), opt_view(data_type), limit)),
            ),
    {
        let q = history_query(start_date, end_date, data_type, limit);
        make_symbol_call("historical-price-full/stock_split", symbol, Some(q))
    }
}

} // verus!
