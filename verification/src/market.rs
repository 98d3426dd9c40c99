//! Calls for general market data.

use vstd::prelude::*;
use crate::request::{ApiRequest, make_plain_call, plain_call};

verus! {

/// Calls for general market data.
pub struct Market;

impl Market {
    /// The most active stocks.
    pub fn most_active() -> (r: ApiRequest)
        ensures
            r@ == plain_call("stock/actives"@),
    {
        make_plain_call("stock/actives")
    }

    /// The stocks with the highest gains.
    pub fn most_gainer() -> (r: ApiRequest)
        ensures
            r@ == plain_call("stock/gainers"@),
    {
        make_plain_call("stock/gainers")
    }

    /// The stocks with the highest losses.
    pub fn most_loser() -> (r: ApiRequest)
        ensures
            r@ == plain_call("stock/losers"@),
    {
        make_plain_call("stock/losers")
    }

    /// The performance of each market sector.
    pub fn sector_performance() -> (r: ApiRequest)
        ensures
            r@ == plain_call("stock/sectors-performance"@),
    {
        make_plain_call("stock/sectors-performance")
    }

    /// Whether the market is open now.
    pub fn trading_hours() -> (r: ApiRequest)
        ensures
            r@ == plain_call("is-the-market-open"@),
    {
        make_plain_call("is-the-market-open")
    }

}

} // verus!
