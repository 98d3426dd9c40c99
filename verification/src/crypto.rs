//! Calls for cryptocurrency data.

use vstd::prelude::*;
use vstd::string::StringExecFns;
use crate::request::{
    ApiRequest, ApiRequestView, PathParam, QueryParams, QueryView, generate_json, history_query,
    history_query_view, make_plain_call, make_symbol_call, opt_view, plain_call, symbol_call,
    symbols_call,
};
use crate::text::{
    ascii_text, ascii_upper, ends_with_text, lemma_ascii_upper_idempotent, spec_to_uppercase,
    text_ends_with, to_uppercase,
};

verus! {

/// One value, or a list of values.
pub enum Either<L, R> {
    Single(L),
    Array(R),
}

/// Calls for cryptocurrency data.
pub struct Cryptos;

/// A cryptocurrency symbol made to name its price in US dollars: the symbol
/// in uppercase, with `USD` appended unless it already ends with `USD`.
pub open spec fn normalized_symbol(symbol: Seq<char>) -> Seq<char> {
    let upper = spec_to_uppercase(symbol);
    if text_ends_with(upper, "USD"@) {
        upper
    } else {
        upper + "USD"@
    }
}

/// Every normalized symbol ends with `USD`, and is the uppercase symbol
/// itself or the uppercase symbol followed by `USD`: nothing else is added
/// and nothing is taken away.
pub proof fn lemma_normalized_ends_with_usd(symbol: Seq<char>)
    ensures
        text_ends_with(normalized_symbol(symbol), "USD"@),
        normalized_symbol(symbol) == spec_to_uppercase(symbol) || normalized_symbol(symbol)
            == spec_to_uppercase(symbol) + "USD"@,
        text_ends_with(spec_to_uppercase(symbol), "USD"@) ==> normalized_symbol(symbol)
            == spec_to_uppercase(symbol),
{
    let upper = spec_to_uppercase(symbol);
    let usd = "USD"@;
    if !text_ends_with(upper, usd) {
        let r = upper + usd;
        assert(r.skip(r.len() - usd.len()) =~= usd);
    }
}

/// The normalized form of an ASCII symbol: its ASCII uppercase, with `USD`
/// appended unless it already ends with `USD`.
pub open spec fn ascii_normalized(symbol: Seq<char>) -> Seq<char> {
    let upper = ascii_upper(symbol);
    if text_ends_with(upper, "USD"@) {
        upper
    } else {
        upper + "USD"@
    }
}

/// Normalizing an ASCII symbol gives an ASCII symbol, and normalizing that
/// again changes nothing.
pub proof fn lemma_ascii_normalize_idempotent(symbol: Seq<char>)
    requires
        ascii_text(symbol),
    ensures
        ascii_text(ascii_normalized(symbol)),
        ascii_normalized(ascii_normalized(symbol)) == ascii_normalized(symbol),
{
    reveal_strlit("USD");
    let usd = "USD"@;
    let upper = ascii_upper(symbol);
    lemma_ascii_upper_idempotent(symbol);
    let n = ascii_normalized(symbol);
    if !text_ends_with(upper, usd) {
        assert forall|i: int| 0 <= i < n.len() implies (#[trigger] n[i] as int) < 128 by {
            if i < upper.len() {
                assert(n[i] == upper[i]);
            } else {
                assert(n[i] == usd[i - upper.len()]);
            }
        }
        assert(ascii_upper(n) =~= n) by {
            assert forall|i: int| 0 <= i < n.len() implies ascii_upper(n)[i] == n[i] by {
                if i < upper.len() {
                    assert(n[i] == upper[i]);
                    assert(ascii_upper(upper)[i] == upper[i]);
                } else {
                    assert(n[i] == usd[i - upper.len()]);
                }
            }
        }
        assert(n.skip(n.len() - usd.len()) =~= usd);
    }
}

/// The normalized symbols of a list.
pub open spec fn normalized_symbols(symbols: Seq<&str>) -> Seq<Seq<char>> {
    symbols.map_values(|s: &str| normalized_symbol(s@))
}

/// The path and query of a crypto history call.
pub open spec fn crypto_history_call(symbols: Either<&str, &[&str]>, query: QueryView) -> ApiRequestView {
    match symbols {
        Either::Single(s) => symbol_call("historical-price-full/crypto"@, normalized_symbol(s@), Some(query)),
        Either::Array(v) => symbols_call("historical-price-full/crypto"@, normalized_symbols(v@), Some(query)),
    }
}

impl Cryptos {
    /// Lists every available cryptocurrency.
    pub fn list() -> (r: ApiRequest)
        ensures
            r@ == plain_call("symbol/available-cryptocurrencies"@),
    {
        make_plain_call("symbol/available-cryptocurrencies")
    }

    /// Makes a symbol name its price in US dollars: uppercases it and
    /// appends `USD` unless it already ends with `USD`.
    pub fn normalize_symbol(symbol: &str) -> (r: String)
        ensures
            r@ == normalized_symbol(symbol@),
            ascii_text(symbol@) ==> r@ == ascii_normalized(symbol@),
    {
        let upper = to_uppercase(symbol);
        if ends_with_text(upper.as_str(), "USD") {
            upper
        } else {
            let mut r = upper;
            r.append("USD");
            r
        }
    }

    /// The normalized symbols of a list, in order.
    fn normalize_all(symbols: &[&str]) -> (r: Vec<String>)
        ensures
            r.deep_view() == normalized_symbols(symbols@),
    {
        let mut out: Vec<String> = Vec::new();
        let mut i: usize = 0;
        while i < symbols.len()
            invariant
                i <= symbols.len(),
                out@.len() == i,
                forall|j: int| 0 <= j < i ==> (#[trigger] out@[j])@ == normalized_symbol(symbols@[j]@),
            decreases symbols.len() - i,
        {
            let n = Self::normalize_symbol(symbols[i]);
            out.push(n);
            i = i + 1;
        }
        assert(out.deep_view() =~= normalized_symbols(symbols@));
        out
    }

    /// Quotes the given cryptocurrencies, one or a list, with their symbols
    /// normalized; with none given, quotes every cryptocurrency.
    pub fn quote(symbols: Option<Either<&str, &[&str]>>) -> (r: ApiRequest)
        ensures
            r@ == (match symbols {
                Some(Either::Single(s)) => symbol_call("quote"@, normalized_symbol(s@), None),
                Some(Either::Array(v)) => symbols_call("quote"@, normalized_symbols(v@), None),
                None => plain_call("cryptocurrencies"@),
            }),
    {
        match symbols {
            Some(Either::Single(symbol)) => {
                let normalized = Self::normalize_symbol(symbol);
                make_symbol_call("quote", normalized.as_str(), None)
            },
            Some(Either::Array(list)) => {
                let normalized = Self::normalize_all(list);
                let params = generate_json(PathParam::Many(normalized), None);
                ApiRequest { url_path: String::from_str("quote"), params }
            },
            None => make_plain_call("cryptocurrencies"),
        }
    }

    /// Historical prices of the given cryptocurrencies, one or a list, with
    /// their symbols normalized, over an optional date range, series type and
    /// number of points.
    pub fn history(
        symbols: Either<&str, &[&str]>,
        start_date: Option<&str>,
        end_date: Option<&str>,
        data_type: Option<&str>,
        limit: Option<i32>,
    ) -> (r: ApiRequest)
        ensures
            r@ == crypto_history_call(
                symbols,
                history_query_view(opt_view(start_date), opt_view(end_date), opt_view(data_type), limit),
            ),
    {
        let path = match symbols {
            Either::Single(symbol) => PathParam::Single(Self::normalize_symbol(symbol)),
            Either::Array(list) => PathParam::Many(Self::normalize_all(list)),
        };
        let q: QueryParams = history_query(start_date, end_date, data_type, limit);
        let params = generate_json(path, Some(q));
        ApiRequest { url_path: String::from_str("historical-price-full/crypto"), params }
    }
}

} // verus!
