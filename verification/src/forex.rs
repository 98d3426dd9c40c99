//! Calls for foreign exchange data of one currency pair.

use vstd::prelude::*;
use vstd::string::StringExecFns;
use crate::request::{
    ApiRequest, history_query, history_query_view, make_plain_call, make_symbol_call, opt_view,
    plain_call, symbol_call,
};

verus! {

/// Calls for foreign exchange data of one currency pair.
pub struct Forex<'a> {
    from_curr: &'a str,
    to_curr: &'a str,
}

impl<'a> View for Forex<'a> {
    type V = (Seq<char>, Seq<char>);

    /// The base and the quote currency.
    closed spec fn view(&self) -> (Seq<char>, Seq<char>) {
        (self.from_curr@, self.to_curr@)
    }
}

/// The symbol of a currency pair: the two codes written together.
pub open spec fn pair_symbol(pair: (Seq<char>, Seq<char>)) -> Seq<char> {
    pair.0 + pair.1
}

/// The symbol of a pair starts with the base currency and goes on with the
/// quote currency, with nothing between or after them.
pub proof fn lemma_pair_symbol_parts(base: Seq<char>, quote: Seq<char>)
    ensures
        pair_symbol((base, quote)).len() == base.len() + quote.len(),
        pair_symbol((base, quote)).take(base.len() as int) == base,
        pair_symbol((base, quote)).skip(base.len() as int) == quote,
{
    assert(pair_symbol((base, quote)).take(base.len() as int) =~= base);
    assert(pair_symbol((base, quote)).skip(base.len() as int) =~= quote);
}

impl<'a> Forex<'a> {
    /// Calls for the pair `from_curr`/`to_curr`.
    pub fn new(from_curr: &'a str, to_curr: &'a str) -> (r: Self)
        ensures
            r@ == (from_curr@, to_curr@),
    {
        Self { from_curr, to_curr }
    }

    /// Lists every available currency pair.
    pub fn list() -> (r: ApiRequest)
        ensures
            r@ == plain_call("symbol/available-forex-currency-pairs"@),
    {
        make_plain_call("symbol/available-forex-currency-pairs")
    }

    /// The pair's symbol.
    fn symbol(&self) -> (s: String)
        ensures
            s@ == pair_symbol(self@),
    {
        let mut s = String::from_str(self.from_curr);
        s.append(self.to_curr);
        s
    }

    /// The current exchange rate of the pair.
    pub fn rate(&self) -> (r: ApiRequest)
        ensures
            r@ == symbol_call("quote"@, pair_symbol(self@), None),
    {
        let symbol = self.symbol();
        make_symbol_call("quote", symbol.as_str(), None)
    }

    /// Historical exchange rates over an optional date range, series type and
    /// number of points.
    pub fn history(
        &self,
        start_date: Option<&str>,
        end_date: Option<&str>,
        data_type: Option<&str>,
        limit: Option<i32>,
    ) -> (r: ApiRequest)
        ensures
            r@ == symbol_call(
                "historical-price-full/forex"@,
                pair_symbol(self@),
                Some(history_query_view(opt_view(start_date), opt_view(end_date), opt_view(data_type), limit)),
            ),
    {
        let symbol = self.symbol();
        let q = history_query(start_date, end_date, data_type, limit);
        make_symbol_call("historical-price-full/forex", symbol.as_str(), Some(q))
    }
}

} // verus!
