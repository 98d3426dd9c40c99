//! The proxy's handling of a client's request: which stream the client
//! asks for, for which tickers, and where that stream lives.

use vstd::prelude::*;
use vstd::string::StringExecFns;
use crate::config::Config;
use crate::options::{FetchType, spec_fetch_type};
use crate::text::{debug_text, join_text, same_text, spec_debug_text};
use crate::websocket::error::WebSocketError;

verus! {

/// The upstream stream of each fetch type.
pub enum TargetUri {
    CryptoUri(String),
    ForexUri(String),
    StockUri(String),
}

/// The address of the upstream stream of a fetch type.
pub open spec fn target_uri_of(fetch_type: FetchType, config: Config) -> Option<Seq<char>> {
    match fetch_type {
        FetchType::Crypto => Some(config.websocket.crypto_ws@),
        FetchType::Forex => Some(config.websocket.forex_ws@),
        FetchType::Stock => Some(config.websocket.stock_ws@),
        FetchType::Unknown => None,
    }
}

/// The view of an optional string.
pub open spec fn opt_string_view(s: Option<String>) -> Option<Seq<char>> {
    match s {
        Some(t) => Some(t@),
        None => None,
    }
}

impl TargetUri {
    /// The address of the upstream stream of `fetch_type`, if it has one.
    pub fn from_fetch_type(fetch_type: FetchType, config: &Config) -> (r: Option<String>)
        ensures
            opt_string_view(r) == target_uri_of(fetch_type, *config),
    {
        match fetch_type {
            FetchType::Crypto => Some(config.websocket.crypto_ws.clone()),
            FetchType::Forex => Some(config.websocket.forex_ws.clone()),
            FetchType::Stock => Some(config.websocket.stock_ws.clone()),
            FetchType::Unknown => None,
        }
    }
}

/// What the proxy needs to serve a client: the stream kind, its address and
/// the tickers.
#[derive(Debug)]
pub struct HandlerArgs {
    pub fetch_type: Option<FetchType>,
    pub target_uri: Option<String>,
    pub tickers: Option<Vec<String>>,
}

/// The function a task request asks for.
#[derive(Debug, Clone, Copy, PartialEq, Eq, Structural)]
pub enum TaskFunction {
    RealTimeMarketData,
    Other,
}

/// A parameter of a task request, as far as the proxy reads it: a text, a
/// list whose items are texts or something else, or something else.
#[derive(Debug)]
pub enum ParamValue {
    Text(String),
    List(Vec<Option<String>>),
    Other,
}

/// The arguments of a task request: the function and its named parameters.
#[derive(Debug)]
pub struct TaskArgs {
    pub function: TaskFunction,
    pub params: Option<Vec<(String, ParamValue)>>,
}

/// A client's request: the target it looks up, and the task arguments.
#[derive(Debug)]
pub struct CallRequest {
    pub target: String,
    pub for_task: Option<TaskArgs>,
}

/// The value of the first parameter named `key`.
pub open spec fn param_lookup(params: Seq<(String, ParamValue)>, key: Seq<char>) -> Option<ParamValue>
    decreases params.len(),
{
    if params.len() == 0 {
        None
    } else if params[0].0@ == key {
        Some(params[0].1)
    } else {
        param_lookup(params.drop_first(), key)
    }
}

/// The texts among a list's items, in order.
pub open spec fn texts_in(items: Seq<Option<String>>) -> Seq<Seq<char>>
    decreases items.len(),
{
    if items.len() == 0 {
        Seq::empty()
    } else {
        let rest = texts_in(items.drop_last());
        match items.last() {
            Some(s) => rest.push(s@),
            None => rest,
        }
    }
}

/// The fetch type a `fetch_type` parameter names, when it is a text.
pub open spec fn fetch_type_param(v: Option<ParamValue>) -> Option<FetchType> {
    match v {
        Some(ParamValue::Text(s)) => Some(spec_fetch_type(s@)),
        _ => None,
    }
}

/// The tickers a `tickers` parameter lists, when it is a list: its texts.
pub open spec fn tickers_param(v: Option<ParamValue>) -> Option<Seq<Seq<char>>> {
    match v {
        Some(ParamValue::List(items)) => Some(texts_in(items@)),
        _ => None,
    }
}

/// The name of a fetch type, as `Debug` writes it.
pub open spec fn fetch_type_name(f: FetchType) -> Seq<char> {
    match f {
        FetchType::Crypto => "Crypto"@,
        FetchType::Forex => "Forex"@,
        FetchType::Stock => "Stock"@,
        FetchType::Unknown => "Unknown"@,
    }
}

/// `Debug` of an optional fetch type.
pub open spec fn fetch_type_debug(f: Option<FetchType>) -> Seq<char> {
    match f {
        Some(t) => "Some("@ + fetch_type_name(t) + ")"@,
        None => "None"@,
    }
}

/// `Debug` of an optional list of tickers.
pub open spec fn tickers_debug(t: Option<Seq<Seq<char>>>) -> Seq<char> {
    match t {
        Some(v) => "Some(["@ + join_text(v.map_values(|s: Seq<char>| spec_debug_text(s)), ", "@)
            + "])"@,
        None => "None"@,
    }
}

/// The message of a request whose parameters lack a fetch type or tickers.
pub open spec fn invalid_args_text(f: Option<FetchType>, t: Option<Seq<Seq<char>>>) -> Seq<char> {
    "Invalid fetch type or tickers. \n                | Fetch type: "@ + fetch_type_debug(f)
        + ". | Tickers "@ + tickers_debug(t)
}

/// The message of a request without parameters.
pub open spec fn null_params_text() -> Seq<char> {
    "params can not be `null` for this request."@
}

/// The message of a request that is not a real-time market data task.
pub open spec fn unparsable_text(target: Seq<char>) -> Seq<char> {
    "The Json object request object could not be parsed. \n            | Lookup: "@ + target
}

/// What the proxy reads from a task's arguments: the fetch type and the
/// tickers, both required.
pub open spec fn relevant_args(args: TaskArgs) -> Result<(FetchType, Seq<Seq<char>>), Seq<char>> {
    match args.params {
        None => Err(null_params_text()),
        Some(params) => {
            let f = fetch_type_param(param_lookup(params@, "fetch_type"@));
            let t = tickers_param(param_lookup(params@, "tickers"@));
            if f is Some && t is Some {
                Ok((f->0, t->0))
            } else {
                Err(invalid_args_text(f, t))
            }
        },
    }
}

/// The handler arguments of a request for the tickers `tickers` of the
/// fetch type `f`.
pub open spec fn handler_for(f: FetchType, tickers: Seq<Seq<char>>, config: Config) -> HandlerArgsView {
    HandlerArgsView { fetch_type: Some(f), target_uri: target_uri_of(f, config), tickers: Some(tickers) }
}

/// The mathematical value of `HandlerArgs`.
pub struct HandlerArgsView {
    pub fetch_type: Option<FetchType>,
    pub target_uri: Option<Seq<char>>,
    pub tickers: Option<Seq<Seq<char>>>,
}

impl View for HandlerArgs {
    type V = HandlerArgsView;

    open spec fn view(&self) -> HandlerArgsView {
        HandlerArgsView {
            fetch_type: self.fetch_type,
            target_uri: opt_string_view(self.target_uri),
            tickers: match self.tickers {
                Some(v) => Some(v.deep_view()),
                None => None,
            },
        }
    }
}

/// What the proxy makes of a client's request: a request that looks up the
/// `task` target for real-time market data yields the handler arguments of
/// its fetch type and tickers; any other request is refused.
pub open spec fn parsed_request(req: CallRequest, config: Config) -> Result<HandlerArgsView, Seq<char>> {
    if req.target@ == "task"@ && req.for_task is Some && req.for_task->0.function
        == TaskFunction::RealTimeMarketData {
        match relevant_args(req.for_task->0) {
            Ok((f, t)) => Ok(handler_for(f, t, config)),
            Err(m) => Err(m),
        }
    } else {
        Err(unparsable_text(req.target@))
    }
}

/// A parsed request names an upstream stream exactly when its fetch type is
/// known, and then the configured stream of that very type: crypto, forex
/// or stock. Its fetch type and tickers are those its parameters give.
pub proof fn lemma_parsed_target_known(req: CallRequest, config: Config)
    requires
        parsed_request(req, config) is Ok,
    ensures
        ({
            let h = parsed_request(req, config)->Ok_0;
            &&& h.fetch_type is Some
            &&& (h.target_uri is Some <==> h.fetch_type->0 != FetchType::Unknown)
            &&& h.tickers == tickers_param(
                param_lookup(req.for_task->0.params->0@, "tickers"@),
            )
            &&& h.fetch_type == fetch_type_param(
                param_lookup(req.for_task->0.params->0@, "fetch_type"@),
            )
            &&& (h.fetch_type == Some(FetchType::Crypto) ==> h.target_uri == Some(
                config.websocket.crypto_ws@,
            ))
            &&& (h.fetch_type == Some(FetchType::Forex) ==> h.target_uri == Some(
                config.websocket.forex_ws@,
            ))
            &&& (h.fetch_type == Some(FetchType::Stock) ==> h.target_uri == Some(
                config.websocket.stock_ws@,
            ))
        }),
{
}

/// The message of a refused request, when the result is a request error.
pub open spec fn request_error_text<A>(r: Result<A, WebSocketError>) -> Option<Seq<char>> {
    match r {
        Err(WebSocketError::RequestError(m)) => Some(m@),
        _ => None,
    }
}

/// The value of the first parameter named `key`.
fn lookup<'a>(params: &'a Vec<(String, ParamValue)>, key: &str) -> (r: Option<&'a ParamValue>)
    ensures
        match r {
            Some(v) => param_lookup(params@, key@) == Some(*v),
            None => param_lookup(params@, key@) is None,
        },
{
    let mut i: usize = 0;
    assert(params@.skip(0) =~= params@);
    while i < params.len()
        invariant
            i <= params.len(),
            param_lookup(params@, key@) == param_lookup(params@.skip(i as int), key@),
        decreases params.len() - i,
    {
        assert(params@.skip(i as int)[0] == params@[i as int]);
        if same_text(params[i].0.as_str(), key) {
            return Some(&params[i].1);
        }
        assert(params@.skip(i as int).drop_first() =~= params@.skip(i + 1));
        i = i + 1;
    }
    None
}

/// The texts among a list's items, in order.
fn texts(items: &Vec<Option<String>>) -> (r: Vec<String>)
    ensures
        r.deep_view() == texts_in(items@),
{
    let mut r: Vec<String> = Vec::new();
    let mut i: usize = 0;
    while i < items.len()
        invariant
            i <= items.len(),
            r.deep_view() == texts_in(items@.take(i as int)),
        decreases items.len() - i,
    {
        assert(items@.take(i + 1).drop_last() =~= items@.take(i as int));
        match &items[i] {
            Some(s) => {
                r.push(s.clone());
                assert(r.deep_view() =~= texts_in(items@.take(i as int)).push(s@));
            },
            None => {},
        }
        i = i + 1;
    }
    assert(items@.take(items.len() as int) =~= items@);
    r
}

/// `Debug` of an optional fetch type.
fn fetch_type_debug_string(f: Option<FetchType>) -> (r: String)
    ensures
        r@ == fetch_type_debug(f),
{
    match f {
        Some(t) => {
            let mut r = String::from_str("Some(");
            let name = match t {
                FetchType::Crypto => "Crypto",
                FetchType::Forex => "Forex",
                FetchType::Stock => "Stock",
                FetchType::Unknown => "Unknown",
            };
            r.append(name);
            r.append(")");
            r
        },
        None => String::from_str("None"),
    }
}

/// `Debug` of an optional list of tickers.
fn tickers_debug_string(t: &Option<Vec<String>>) -> (r: String)
    ensures
        r@ == tickers_debug(
            match t {
                Some(v) => Some(v.deep_view()),
                None => None,
            },
        ),
{
    match t {
        Some(v) => {
            let ghost parts = v.deep_view().map_values(|s: Seq<char>| spec_debug_text(s));
            let mut body = String::new();
            let mut i: usize = 0;
            while i < v.len()
                invariant
                    i <= v.len(),
                    parts == v.deep_view().map_values(|s: Seq<char>| spec_debug_text(s)),
                    body@ == join_text(parts.take(i as int), ", "@),
                decreases v.len() - i,
            {
                let item = debug_text(v[i].as_str());
                assert(parts[i as int] == spec_debug_text(v@[i as int]@));
                let ghost before = body@;
                if i > 0 {
                    body.append(", ");
                }
                body.append(item.as_str());
                proof {
                    let t = parts.take(i + 1);
                    assert(t.drop_last() =~= parts.take(i as int));
                    if i == 0 {
                        assert(parts.take(0) =~= Seq::<Seq<char>>::empty());
                        assert(body@ =~= item@);
                    } else {
                        assert(body@ =~= before + ", "@ + item@);
                    }
                }
                i = i + 1;
            }
            assert(parts.take(v.len() as int) =~= parts);
            let mut r = String::from_str("Some([");
            r.append(body.as_str());
            r.append("])");
            r
        },
        None => String::from_str("None"),
    }
}

/// The first message a client sends, as the proxy receives it.
#[derive(Debug)]
pub enum FirstMessage {
    /// A text that reads as a request.
    Request(CallRequest),
    /// A text that does not read as a request, with the reason.
    Invalid(String),
    /// A message that is not text, with its description.
    NotText(String),
    /// Receiving failed, with the reason.
    Failed(String),
}

/// The message of a first message that is not text.
pub open spec fn not_text_text(description: Seq<char>) -> Seq<char> {
    "Failed to parse JSON message. \n                                | Message: "@ + description
}

/// The handler arguments of a connection whose client sent nothing.
pub open spec fn empty_handler() -> HandlerArgsView {
    HandlerArgsView { fetch_type: None, target_uri: None, tickers: None }
}

/// The proxy server's settings: the upstream configuration and the address
/// it listens on.
pub struct WebSocketProxyServer {
    pub config: Config,
    pub uri: String,
}

impl WebSocketProxyServer {
    /// A proxy listening on `uri`.
    pub fn new(config: Config, uri: &str) -> (r: WebSocketProxyServer)
        ensures
            r.config == config,
            r.uri@ == uri@,
    {
        WebSocketProxyServer { config, uri: String::from_str(uri) }
    }

    /// Reads the fetch type and the tickers from a task's arguments.
    pub fn extract_relevant_args(task_args: &TaskArgs) -> (r: Result<(FetchType, Vec<String>), WebSocketError>)
        ensures
            match relevant_args(*task_args) {
                Ok((f, t)) => r matches Ok((f2, t2)) && f2 == f && t2.deep_view() == t,
                Err(m) => request_error_text(r) == Some(m),
            },
    {
        match &task_args.params {
            None => Err(WebSocketError::RequestError(String::from_str("params can not be `null` for this request."))),
            Some(params) => {
                let fetch_type = match lookup(params, "fetch_type") {
                    Some(ParamValue::Text(s)) => Some(FetchType::from_str(s.as_str())),
                    _ => None,
                };
                let tickers = match lookup(params, "tickers") {
                    Some(ParamValue::List(items)) => Some(texts(items)),
                    _ => None,
                };
                match (fetch_type, tickers) {
                    (Some(f), Some(t)) => Ok((f, t)),
                    (f, t) => {
                        let mut m = String::from_str("Invalid fetch type or tickers. \n                | Fetch type: ");
                        let fd = fetch_type_debug_string(f);
                        m.append(fd.as_str());
                        m.append(". | Tickers ");
                        let td = tickers_debug_string(&t);
                        m.append(td.as_str());
                        Err(WebSocketError::RequestError(m))
                    },
                }
            },
        }
    }

    /// Makes the handler arguments of a client's request, or refuses it.
    pub fn parse_call_request(req: &CallRequest, config: &Config) -> (r: Result<HandlerArgs, WebSocketError>)
        ensures
            match parsed_request(*req, *config) {
                Ok(h) => r matches Ok(args) && args@ == h,
                Err(m) => request_error_text(r) == Some(m),
            },
    {
        if same_text(req.target.as_str(), "task") {
            match &req.for_task {
                Some(task_args) => {
                    if task_args.function == TaskFunction::RealTimeMarketData {
                        let (fetch_type, tickers) = match Self::extract_relevant_args(task_args) {
                            Ok(pair) => pair,
                            Err(e) => {
                                return Err(e);
                            },
                        };
                        let target_uri = TargetUri::from_fetch_type(fetch_type, config);
                        return Ok(HandlerArgs {
                            fetch_type: Some(fetch_type),
                            target_uri,
                            tickers: Some(tickers),
                        });
                    }
                },
                None => {},
            }
        }
        let mut m = String::from_str("The Json object request object could not be parsed. \n            | Lookup: ");
        m.append(req.target.as_str());
        Err(WebSocketError::RequestError(m))
    }

    /// The address of the upstream stream a handler was made for.
    pub fn required_target_uri(handler: &HandlerArgs) -> (r: Result<String, WebSocketError>)
        ensures
            match handler@.target_uri {
                Some(u) => r matches Ok(s) && s@ == u,
                None => request_error_text(r) == Some("Target uri is missimg"@),
            },
    {
        match &handler.target_uri {
            Some(u) => Ok(u.clone()),
            None => Err(WebSocketError::RequestError(String::from_str("Target uri is missimg"))),
        }
    }

    /// The tickers to subscribe to for a handler: its tickers, or none.
    pub fn subscription_tickers(handler: &HandlerArgs) -> (r: Vec<String>)
        ensures
            r.deep_view() == (match handler@.tickers {
                Some(t) => t,
                None => Seq::<Seq<char>>::empty(),
            }),
    {
        match &handler.tickers {
            Some(t) => t.clone(),
            None => {
                let v: Vec<String> = Vec::new();
                assert(v.deep_view() =~= Seq::<Seq<char>>::empty());
                v
            },
        }
    }

    /// What the proxy makes of a client's first message: no message leaves
    /// the handler empty; a request is parsed; a text that is no request, or
    /// a message that is not text, is refused as a request error; a failed
    /// receive is a connection error.
    pub fn handler_from_first_message(first: Option<FirstMessage>, config: &Config) -> (r: Result<HandlerArgs, WebSocketError>)
        ensures
            match first {
                None => r matches Ok(h) && h@ == empty_handler(),
                Some(FirstMessage::Request(req)) => match parsed_request(req, *config) {
                    Ok(h) => r matches Ok(args) && args@ == h,
                    Err(m) => request_error_text(r) == Some(m),
                },
                Some(FirstMessage::Invalid(e)) => request_error_text(r) == Some(e@),
                Some(FirstMessage::NotText(d)) => request_error_text(r) == Some(not_text_text(d@)),
                Some(FirstMessage::Failed(e)) => r matches Err(WebSocketError::ConnectError(m)) && m@ == e@,
            },
    {
        match first {
            None => {
                let h = HandlerArgs { fetch_type: None, target_uri: None, tickers: None };
                Ok(h)
            },
            Some(FirstMessage::Request(req)) => Self::parse_call_request(&req, config),
            Some(FirstMessage::Invalid(e)) => Err(WebSocketError::RequestError(e)),
            Some(FirstMessage::NotText(d)) => {
                let mut m = String::from_str("Failed to parse JSON message. \n                                | Message: ");
                m.append(d.as_str());
                Err(WebSocketError::RequestError(m))
            },
            Some(FirstMessage::Failed(e)) => Err(WebSocketError::ConnectError(e)),
        }
    }
}

} // verus!
