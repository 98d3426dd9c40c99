//! Calls for the financial statements of one company.

use vstd::prelude::*;
use crate::request::{ApiRequest, make_symbol_call, opt_view, period_query, period_query_view, symbol_call};

verus! {

/// Calls for the financial statements of one company.
pub struct Financial<'a> {
    symbol: &'a str,
}

impl<'a> View for Financial<'a> {
    type V = Seq<char>;

    /// The company's symbol.
    closed spec fn view(&self) -> Seq<char> {
        self.symbol@
    }
}

impl<'a> Financial<'a> {
    /// Financial statements of the company `symbol`.
    pub fn new(symbol: &'a str) -> (r: Self)
        ensures
            r@ == symbol@,
    {
        Self { symbol }
    }

    /// The income statement for `period`, `annual` unless given.
    pub fn income(&self, period: Option<&str>) -> (r: ApiRequest)
        ensures
            r@ == symbol_call("financials/income-statement"@, self@, Some(period_query_view(opt_view(period)))),
    {
        make_symbol_call("financials/income-statement", self.symbol, Some(period_query(period)))
    }

    /// The balance sheet for `period`, `annual` unless given.
    pub fn balance(&self, period: Option<&str>) -> (r: ApiRequest)
        ensures
            r@ == symbol_call("financials/balance-sheet-statement"@, self@, Some(period_query_view(opt_view(period)))),
    {
        make_symbol_call("financials/balance-sheet-statement", self.symbol, Some(period_query(period)))
    }

    /// The cash flow statement for `period`, `annual` unless given.
    pub fn cashflow(&self, period: Option<&str>) -> (r: ApiRequest)
        ensures
            r@ == symbol_call("financials/cash-flow-statement"@, self@, Some(period_query_view(opt_view(period)))),
    {
        make_symbol_call("financials/cash-flow-statement", self.symbol, Some(period_query(period)))
    }

    /// The key company metrics for `period`, `annual` unless given.
    pub fn metrics(&self, period: Option<&str>) -> (r: ApiRequest)
        ensures
            r@ == symbol_call("company-key-metrics"@, self@, Some(period_query_view(opt_view(period)))),
    {
        make_symbol_call("company-key-metrics", self.symbol, Some(period_query(period)))
    }

    /// The growth of the financial statements for `period`, `annual` unless given.
    pub fn growth(&self, period: Option<&str>) -> (r: ApiRequest)
        ensures
            r@ == symbol_call("financial-statement-growth"@, self@, Some(period_query_view(opt_view(period)))),
    {
        make_symbol_call("financial-statement-growth", self.symbol, Some(period_query(period)))
    }

    /// The enterprise value for `period`, `annual` unless given.
    pub fn company_value(&self, period: Option<&str>) -> (r: ApiRequest)
        ensures
            r@ == symbol_call("enterprise-value"@, self@, Some(period_query_view(opt_view(period)))),
    {
        make_symbol_call("enterprise-value", self.symbol, Some(period_query(period)))
    }

    /// The financial ratios.
    pub fn ratios(&self) -> (r: ApiRequest)
        ensures
            r@ == symbol_call("financial-ratios"@, self@, None),
    {
        make_symbol_call("financial-ratios", self.symbol, None)
    }
}

} // verus!
