//! The kind of market data a client asks the proxy for.

use vstd::prelude::*;
use crate::text::same_text;

verus! {

/// Which upstream stream a client request selects.
#[derive(Debug, Clone, Copy, PartialEq, Eq, Structural)]
pub enum FetchType {
    Crypto,
    Forex,
    Stock,
    Unknown,
}

/// The fetch type named by `s`: exactly the lowercase words `crypto`,
/// `forex` and `stock` select a stream; anything else is `Unknown`.
pub open spec fn spec_fetch_type(s: Seq<char>) -> FetchType {
    if s == "crypto"@ {
        FetchType::Crypto
    } else if s == "forex"@ {
        FetchType::Forex
    } else if s == "stock"@ {
        FetchType::Stock
    } else {
        FetchType::Unknown
    }
}

impl FetchType {
    /// Reads a fetch type from its name.
    pub fn from_str(s: &str) -> (r: FetchType)
        ensures
            r == spec_fetch_type(s@),
    {
        if same_text(s, "crypto") {
            FetchType::Crypto
        } else if same_text(s, "forex") {
            FetchType::Forex
        } else if same_text(s, "stock") {
            FetchType::Stock
        } else {
            FetchType::Unknown
        }
    }
}

} // verus!
