//! Calls for the data of one stock.

use vstd::prelude::*;
use crate::financial::Financial;
use crate::request::{
    ApiRequest, history_query, history_query_view, make_plain_call, make_symbol_call, opt_view,
    plain_call, symbol_call,
};

verus! {

/// Calls for the data of one stock.
pub struct Stock<'a> {
    symbol: &'a str,
}

impl<'a> View for Stock<'a> {
    type V = Seq<char>;

    /// The stock's symbol.
    closed spec fn view(&self) -> Seq<char> {
        self.symbol@
    }
}

impl<'a> Stock<'a> {
    /// Calls for the stock `symbol`.
    pub fn new(symbol: &'a str) -> (r: Self)
        ensures
            r@ == symbol@,
    {
        Self { symbol }
    }

    /// Lists every available stock.
    pub fn list() -> (r: ApiRequest)
        ensures
            r@ == plain_call("stock/list"@),
    {
        make_plain_call("stock/list")
    }

    /// The financial statements of the same company.
    pub fn financial(&self) -> (r: Financial<'a>)
        ensures
            r@ == self@,
    {
        Financial::new(self.symbol)
    }

    /// The company profile.
    pub fn profile(&self) -> (r: ApiRequest)
        ensures
            r@ == symbol_call("company/profile"@, self@, None),
    {
        make_symbol_call("company/profile", self.symbol, None)
    }

    /// The current quote.
    pub fn quote(&self) -> (r: ApiRequest)
        ensures
            r@ == symbol_call("quote"@, self@, None),
    {
        make_symbol_call("quote", self.symbol, None)
    }

    /// The company rating.
    pub fn rating(&self) -> (r: ApiRequest)
        ensures
            r@ == symbol_call("company/rating"@, self@, None),
    {
        make_symbol_call("company/rating", self.symbol, None)
    }

    /// The real-time price.
    pub fn current_price(&self) -> (r: ApiRequest)
        ensures
            r@ == symbol_call("stock/real-time-price"@, self@, None),
    {
        make_symbol_call("stock/real-time-price", self.symbol, None)
    }

    /// Historical prices over an optional date range, series type and number of points.
    pub fn history(
        &self,
        start_date: Option<&str>,
        end_date: Option<&str>,
        data_type: Option<&str>,
        limit: Option<i32>,
    ) -> (r: ApiRequest)
        ensures
            r@ == symbol_call(
                "historical-price-full"@,
                self@,
                Some(history_query_view(opt_view(start_date), opt_view(end_date), opt_view(data_type), limit)),
            ),
    {
        let q = history_query(start_date, end_date, data_type, limit);
        make_symbol_call("historical-price-full", self.symbol, Some(q))
    }

    /// Dividend history over an optional date range, series type and number of points.
    pub fn dividend_history(
        &self,
        start_date: Option<&str>,
        end_date: Option<&str>,
        data_type: Option<&str>,
        limit: Option<i32>,
    ) -> (r: ApiRequest)
        ensures
            r@ == symbol_call(
                "historical-price-full/stock_dividend"@,
                self@,
                Some(history_query_view(opt_view(start_date), opt_view(end_date), opt_view(data_type), limit)),
            ),
    {
        let q = history_query(start_date, end_date, data_type, limit);
        make_symbol_call("historical-price-full/stock_dividend", self.symbol, Some(q))
    }

    /// Split history over an optional date range, series type and number of points.
    pub fn split_history(
        &self,
        start_date: Option<&str>,
        end_date: Option<&str>,
        data_type: Option<&str>,
        limit: Option<i32>,
    ) -> (r: ApiRequest)
        ensures
            r@ == symbol_call(
                "historical-price-full/stock_split"@,
                self@,
                Some(history_query_view(opt_view(start_date), opt_view(end_date), opt_view(data_type), limit)),
            ),
    {
        let q = history_query(start_date, end_date, data_type, limit);
        make_symbol_call("historical-price-full/stock_split", self.symbol, Some(q))
    }
}

} // verus!
