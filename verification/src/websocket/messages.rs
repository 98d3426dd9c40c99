//! The JSON messages sent to the upstream websocket servers and to clients.

use vstd::prelude::*;
use vstd::string::StringExecFns;
use crate::json::{json_string, json_string_text};
use crate::text::join_text;
use crate::websocket::error::{WebSocketError, error_text};

verus! {

/// The login message: the API key under `data.apiKey`, with the keys of each
/// object in order.
pub open spec fn login_text(api_key: Seq<char>) -> Seq<char> {
    "{\"data\":{\"apiKey\":"@ + json_string_text(api_key) + "},\"event\":\"login\"}"@
}

/// The JSON array of a list of tickers.
pub open spec fn ticker_array_text(tickers: Seq<Seq<char>>) -> Seq<char> {
    "["@ + join_text(tickers.map_values(|t: Seq<char>| json_string_text(t)), ","@) + "]"@
}

/// The ticker array is built one ticker at a time: no tickers give `[]`, one
/// ticker gives its JSON string in brackets, and each further ticker follows
/// the ones before it after exactly one comma.
pub proof fn lemma_ticker_array_grows(tickers: Seq<Seq<char>>, t: Seq<char>)
    ensures
        ticker_array_text(Seq::empty()) == "[]"@,
        ticker_array_text(seq![t]) == "["@ + json_string_text(t) + "]"@,
        tickers.len() > 0 ==> ticker_array_text(tickers.push(t)) == ticker_array_text(tickers).drop_last()
            + ","@ + json_string_text(t) + "]"@,
{
    reveal_strlit("[");
    reveal_strlit("]");
    reveal_strlit("[]");
    reveal_strlit(",");
    let f = |x: Seq<char>| json_string_text(x);
    assert(Seq::<Seq<char>>::empty().map_values(f) =~= Seq::<Seq<char>>::empty());
    assert(seq![t].map_values(f) =~= seq![json_string_text(t)]);
    assert("["@ + Seq::<char>::empty() + "]"@ =~= "[]"@);
    if tickers.len() > 0 {
        let parts = tickers.map_values(f);
        let longer = tickers.push(t).map_values(f);
        assert(longer =~= parts.push(json_string_text(t)));
        assert(longer.drop_last() =~= parts);
        let body = join_text(parts, ","@);
        assert(("["@ + body + "]"@).drop_last() =~= "["@ + body);
        assert("["@ + join_text(longer, ","@) + "]"@ =~= "["@ + body + ","@ + json_string_text(t) + "]"@);
    }
}

/// A ticker message: the tickers under `data.ticker`, and the event's name.
pub open spec fn ticker_event_text(event: Seq<char>, tickers: Seq<Seq<char>>) -> Seq<char> {
    "{\"data\":{\"ticker\":"@ + ticker_array_text(tickers) + "},\"event\":"@ + json_string_text(event)
        + "}"@
}

/// The message that logs in to an upstream server with `api_key`.
pub fn login_message(api_key: &str) -> (r: String)
    ensures
        r@ == login_text(api_key@),
{
    let mut r = String::from_str("{\"data\":{\"apiKey\":");
    let key = json_string(api_key);
    r.append(key.as_str());
    r.append("},\"event\":\"login\"}");
    r
}

/// The JSON array of `tickers`.
fn ticker_array(tickers: &Vec<String>) -> (r: String)
    ensures
        r@ == ticker_array_text(tickers.deep_view()),
{
    let ghost parts = tickers.deep_view().map_values(|t: Seq<char>| json_string_text(t));
    let mut body = String::new();
    let mut i: usize = 0;
    while i < tickers.len()
        invariant
            i <= tickers.len(),
            parts == tickers.deep_view().map_values(|t: Seq<char>| json_string_text(t)),
            body@ == join_text(parts.take(i as int), ","@),
        decreases tickers.len() - i,
    {
        let item = json_string(tickers[i].as_str());
        assert(parts[i as int] == json_string_text(tickers@[i as int]@));
        let ghost before = body@;
        if i > 0 {
            body.append(",");
        }
        body.append(item.as_str());
        proof {
            let t = parts.take(i + 1);
            assert(t.drop_last() =~= parts.take(i as int));
            if i == 0 {
                assert(parts.take(0) =~= Seq::<Seq<char>>::empty());
                assert(body@ =~= item@);
            } else {
                assert(body@ =~= before + ","@ + item@);
            }
        }
        i = i + 1;
    }
    assert(parts.take(tickers.len() as int) =~= parts);
    let mut r = String::from_str("[");
    r.append(body.as_str());
    r.append("]");
    r
}

/// A ticker message for `event` over `tickers`.
fn ticker_event(event: &str, tickers: &Vec<String>) -> (r: String)
    ensures
        r@ == ticker_event_text(event@, tickers.deep_view()),
{
    let mut r = String::from_str("{\"data\":{\"ticker\":");
    let array = ticker_array(tickers);
    r.append(array.as_str());
    r.append("},\"event\":");
    let name = json_string(event);
    r.append(name.as_str());
    r.append("}");
    r
}

/// The message that subscribes to `tickers`.
pub fn subscribe_message(tickers: &Vec<String>) -> (r: String)
    ensures
        r@ == ticker_event_text("subscribe"@, tickers.deep_view()),
{
    ticker_event("subscribe", tickers)
}

/// The message that subscribes to one ticker.
pub fn subscribe_one_message(ticker: &str) -> (r: String)
    ensures
        r@ == ticker_event_text("subscribe"@, seq![ticker@]),
{
    let mut v: Vec<String> = Vec::new();
    v.push(String::from_str(ticker));
    assert(v.deep_view() =~= seq![ticker@]);
    ticker_event("subscribe", &v)
}

/// The message that unsubscribes from one ticker.
pub fn unsubscribe_one_message(ticker: &str) -> (r: String)
    ensures
        r@ == ticker_event_text("unsubscribe"@, seq![ticker@]),
{
    let mut v: Vec<String> = Vec::new();
    v.push(String::from_str(ticker));
    assert(v.deep_view() =~= seq![ticker@]);
    ticker_event("unsubscribe", &v)
}

/// The report of an error sent to a client: its message under `error`.
#[derive(Debug)]
pub struct ErrorLog {
    pub error: String,
}

/// The JSON text of an error report.
pub open spec fn error_log_text(error: Seq<char>) -> Seq<char> {
    "{\"error\":"@ + json_string_text(error) + "}"@
}

impl ErrorLog {
    /// The report of `err`: its message.
    pub fn from(err: &WebSocketError) -> (r: ErrorLog)
        ensures
            r.error@ == error_text(*err),
    {
        ErrorLog { error: err.message() }
    }

    /// The JSON text of the report.
    pub fn to_string(&self) -> (r: String)
        ensures
            r@ == error_log_text(self.error@),
    {
        let mut r = String::from_str("{\"error\":");
        let e = json_string(self.error.as_str());
        r.append(e.as_str());
        r.append("}");
        r
    }
}

/// The reason given when a connection is closed: the one given, or a stock
/// phrase.
pub fn close_reason(reason: Option<String>) -> (r: String)
    ensures
        r@ == (match reason {
            Some(s) => s@,
            None => "No specific reason provided"@,
        }),
{
    match reason {
        Some(s) => s,
        None => String::from_str("No specific reason provided"),
    }
}

} // verus!
