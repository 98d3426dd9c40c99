use serde_json::Value;
use market_data::config::{ApiConfig, Config, WebSocketConfig};
use market_data::options::FetchType;
use market_data::websocket::batch::{BatchAction, BatchEvent, BatchState};
use market_data::websocket::error::{CryptoError, ErrorStatus, StockError, WebSocketError};
use market_data::websocket::messages::{
    close_reason, login_message, subscribe_message, subscribe_one_message, unsubscribe_one_message, ErrorLog,
};
use market_data::websocket::proxy::{
    CallRequest, FirstMessage, HandlerArgs, ParamValue, TargetUri, TaskArgs, TaskFunction, WebSocketProxyServer,
};
use market_data::websocket::sockets::{CryptoSocket, ForexSocket, StockSocket};

fn config() -> Config {
    Config {
        api: ApiConfig { token: "TOKEN".to_string() },
        websocket: WebSocketConfig {
            crypto_ws: "wss://crypto".to_string(),
            forex_ws: "wss://forex".to_string(),
            stock_ws: "wss://stock".to_string(),
            fwd_stock_ws: "ws://forward".to_string(),
            buffer_size: 3,
            channel_bound: 16,
            batch_interval_ms: 500,
            shutdown_delay_ms: 5,
        },
    }
}

fn forwarded(action: BatchAction<u32>) -> Option<Vec<u32>> {
    match action {
        BatchAction::Forward(v) => Some(v),
        _ => None,
    }
}

#[test]
fn batch_flushes_at_size_and_on_tick() {
    let mut b: BatchState<u32> = BatchState::new(3);
    assert!(matches!(b.handle_event(BatchEvent::Tick), BatchAction::Wait));
    assert!(matches!(b.handle_event(BatchEvent::Received(1)), BatchAction::Wait));
    assert!(matches!(b.handle_event(BatchEvent::Received(2)), BatchAction::Wait));
    assert_eq!(b.pending(), 2);
    assert_eq!(forwarded(b.handle_event(BatchEvent::Received(3))), Some(vec![1, 2, 3]));
    assert_eq!(b.pending(), 0);
    assert!(matches!(b.handle_event(BatchEvent::Received(4)), BatchAction::Wait));
    assert_eq!(forwarded(b.handle_event(BatchEvent::Tick)), Some(vec![4]));
    assert!(matches!(b.handle_event(BatchEvent::Tick), BatchAction::Wait));
}

#[test]
fn batch_stops_on_shutdown_and_ignores_later_events() {
    let mut b: BatchState<u32> = BatchState::new(2);
    assert!(matches!(b.handle_event(BatchEvent::Received(9)), BatchAction::Wait));
    assert!(matches!(b.handle_event(BatchEvent::Shutdown), BatchAction::Stop));
    assert!(b.is_stopped());
    assert!(matches!(b.handle_event(BatchEvent::Received(10)), BatchAction::Stop));
    assert!(matches!(b.handle_event(BatchEvent::Tick), BatchAction::Stop));
    assert_eq!(b.pending(), 1);
    assert_eq!(b.process(), vec![9]);
}

#[test]
fn batch_of_size_zero_forwards_each_update() {
    let mut b: BatchState<u32> = BatchState::new(0);
    assert_eq!(forwarded(b.handle_event(BatchEvent::Received(5))), Some(vec![5]));
    assert_eq!(forwarded(b.handle_event(BatchEvent::Received(6))), Some(vec![6]));
}

#[test]
fn batch_keeps_every_update_in_order() {
    let mut b: BatchState<u32> = BatchState::new(4);
    let mut out = Vec::new();
    for i in 0..10u32 {
        if let Some(v) = forwarded(b.handle_event(BatchEvent::Received(i))) {
            out.extend(v);
        }
        if i == 5 {
            if let Some(v) = forwarded(b.handle_event(BatchEvent::Tick)) {
                out.extend(v);
            }
        }
    }
    out.extend(b.process());
    assert_eq!(out, (0..10).collect::<Vec<u32>>());
}

#[test]
fn protocol_messages() {
    assert_eq!(login_message("TOKEN"), "{\"data\":{\"apiKey\":\"TOKEN\"},\"event\":\"login\"}");
    assert_eq!(
        subscribe_message(&vec!["AAPL".to_string(), "MSFT".to_string()]),
        "{\"data\":{\"ticker\":[\"AAPL\",\"MSFT\"]},\"event\":\"subscribe\"}"
    );
    assert_eq!(subscribe_message(&vec![]), "{\"data\":{\"ticker\":[]},\"event\":\"subscribe\"}");
    assert_eq!(subscribe_one_message("A\"B"), "{\"data\":{\"ticker\":[\"A\\\"B\"]},\"event\":\"subscribe\"}");
    assert_eq!(unsubscribe_one_message("X"), "{\"data\":{\"ticker\":[\"X\"]},\"event\":\"unsubscribe\"}");
}

#[test]
fn messages_match_serde_json() {
    let mut data = serde_json::Map::new();
    data.insert("apiKey".to_string(), Value::String("to\"ken".to_string()));
    let mut login = serde_json::Map::new();
    login.insert("event".to_string(), Value::String("login".to_string()));
    login.insert("data".to_string(), Value::Object(data));
    assert_eq!(login_message("to\"ken"), Value::Object(login).to_string());

    let tickers = vec!["ETHUSD".to_string(), "BTC\nUSD".to_string()];
    let mut data = serde_json::Map::new();
    data.insert(
        "ticker".to_string(),
        Value::Array(tickers.iter().map(|t| Value::String(t.clone())).collect()),
    );
    let mut sub = serde_json::Map::new();
    sub.insert("event".to_string(), Value::String("subscribe".to_string()));
    sub.insert("data".to_string(), Value::Object(data));
    assert_eq!(subscribe_message(&tickers), Value::Object(sub).to_string());
}

#[test]
fn error_messages_and_reports() {
    let e = WebSocketError::RequestError("bad".to_string());
    assert_eq!(e.message(), "Other error: bad");
    assert_eq!(WebSocketError::ConnectError("x".to_string()).message(), "Failed to connect to WebSocket: x");
    assert_eq!(WebSocketError::DeserializationError("y".to_string()).message(), "Failed to deserialize JSON message: y");
    assert_eq!(WebSocketError::BatchProcessingError("z".to_string()).message(), "Batch processing error: z");
    let log = ErrorLog::from(&e);
    assert_eq!(log.error, "Other error: bad");
    assert_eq!(log.to_string(), "{\"error\":\"Other error: bad\"}");
    let s = StockError::consumption_failed(WebSocketError::OtherError("boom".to_string()));
    assert_eq!(s.message(), "StockError(status: 0, wrapped: Other error: boom)");
    let c = CryptoError { wrapped: WebSocketError::SendError("q".to_string()), status: ErrorStatus::ConsumptionFailed(-12) };
    assert_eq!(c.message(), "CryptoError(status: -12, wrapped: Failed to send WebSocket message: q)");
    assert_eq!(ErrorStatus::ConsumptionFailed(305).message(), "305");
}

#[test]
fn close_reason_default() {
    assert_eq!(close_reason(None), "No specific reason provided");
    assert_eq!(close_reason(Some("Stream ending.".to_string())), "Stream ending.");
}

#[test]
fn target_uri_per_fetch_type() {
    let c = config();
    assert_eq!(TargetUri::from_fetch_type(FetchType::Crypto, &c), Some("wss://crypto".to_string()));
    assert_eq!(TargetUri::from_fetch_type(FetchType::Forex, &c), Some("wss://forex".to_string()));
    assert_eq!(TargetUri::from_fetch_type(FetchType::Stock, &c), Some("wss://stock".to_string()));
    assert_eq!(TargetUri::from_fetch_type(FetchType::Unknown, &c), None);
}

fn task(params: Option<Vec<(String, ParamValue)>>) -> CallRequest {
    CallRequest {
        target: "task".to_string(),
        for_task: Some(TaskArgs { function: TaskFunction::RealTimeMarketData, params }),
    }
}

fn request_error(r: Result<HandlerArgs, WebSocketError>) -> String {
    match r {
        Err(WebSocketError::RequestError(m)) => m,
        _ => panic!("expected a request error"),
    }
}

#[test]
fn proxy_parses_real_time_requests() {
    let c = config();
    let req = task(Some(vec![
        ("fetch_type".to_string(), ParamValue::Text("stock".to_string())),
        (
            "tickers".to_string(),
            ParamValue::List(vec![Some("AAPL".to_string()), None, Some("MSFT".to_string())]),
        ),
    ]));
    let h = WebSocketProxyServer::parse_call_request(&req, &c).expect("parsed");
    assert_eq!(h.fetch_type, Some(FetchType::Stock));
    assert_eq!(h.target_uri, Some("wss://stock".to_string()));
    assert_eq!(h.tickers, Some(vec!["AAPL".to_string(), "MSFT".to_string()]));
    assert_eq!(WebSocketProxyServer::required_target_uri(&h).ok(), Some("wss://stock".to_string()));
    assert_eq!(WebSocketProxyServer::subscription_tickers(&h), vec!["AAPL".to_string(), "MSFT".to_string()]);

    let req = task(Some(vec![
        ("tickers".to_string(), ParamValue::List(vec![])),
        ("fetch_type".to_string(), ParamValue::Text("bonds".to_string())),
    ]));
    let h = WebSocketProxyServer::parse_call_request(&req, &c).expect("parsed");
    assert_eq!(h.fetch_type, Some(FetchType::Unknown));
    assert_eq!(h.target_uri, None);
    match WebSocketProxyServer::required_target_uri(&h) {
        Err(WebSocketError::RequestError(m)) => assert_eq!(m, "Target uri is missimg"),
        _ => panic!("expected a missing target"),
    }
}

#[test]
fn proxy_refuses_other_requests() {
    let c = config();
    assert_eq!(request_error(WebSocketProxyServer::parse_call_request(&task(None), &c)), "params can not be `null` for this request.");
    let req = task(Some(vec![("fetch_type".to_string(), ParamValue::Text("crypto".to_string()))]));
    assert_eq!(
        request_error(WebSocketProxyServer::parse_call_request(&req, &c)),
        "Invalid fetch type or tickers. \n                | Fetch type: Some(Crypto). | Tickers None"
    );
    let req = task(Some(vec![
        ("fetch_type".to_string(), ParamValue::Other),
        ("tickers".to_string(), ParamValue::List(vec![Some("a\"b".to_string())])),
    ]));
    assert_eq!(
        request_error(WebSocketProxyServer::parse_call_request(&req, &c)),
        "Invalid fetch type or tickers. \n                | Fetch type: None. | Tickers Some([\"a\\\"b\"])"
    );
    let req = CallRequest { target: "other".to_string(), for_task: None };
    assert_eq!(
        request_error(WebSocketProxyServer::parse_call_request(&req, &c)),
        "The Json object request object could not be parsed. \n            | Lookup: other"
    );
    let req = CallRequest {
        target: "task".to_string(),
        for_task: Some(TaskArgs { function: TaskFunction::Other, params: None }),
    };
    assert_eq!(
        request_error(WebSocketProxyServer::parse_call_request(&req, &c)),
        "The Json object request object could not be parsed. \n            | Lookup: task"
    );
}

#[test]
fn stock_socket_follows_each_ticker_once() {
    let mut s = StockSocket::new(config());
    s.update_tickers(vec!["AAPL", "MSFT", "AAPL"]);
    s.update_tickers(vec!["GOOG", "MSFT"]);
    assert_eq!(s.tickers(), &vec!["AAPL".to_string(), "MSFT".to_string(), "GOOG".to_string()]);
    s.update_tickers(vec!["GOOG", "MSFT"]);
    assert_eq!(s.tickers().len(), 3);
    let plan = s.stream_plan();
    assert_eq!(plan.ws, "wss://stock");
    assert_eq!(plan.forward, Some("ws://forward".to_string()));
    assert_eq!(plan.tickers, vec!["AAPL".to_string(), "MSFT".to_string(), "GOOG".to_string()]);
    let crypto = CryptoSocket::new(config());
    let plan = crypto.stream_plan();
    assert_eq!(plan.ws, "wss://stock");
    assert!(plan.tickers.is_empty());
}

#[test]
fn stock_socket_subscriptions() {
    let mut s = StockSocket::new(config());
    assert_eq!(
        s.subscribe_to_stock("AAPL"),
        Some("{\"data\":{\"ticker\":[\"AAPL\"]},\"event\":\"subscribe\"}".to_string())
    );
    assert_eq!(s.subscribe_to_stock("AAPL"), None);
    assert_eq!(s.unsubscribe_from_stock("MSFT"), None);
    assert_eq!(
        s.unsubscribe_from_stock("AAPL"),
        Some("{\"data\":{\"ticker\":[\"AAPL\"]},\"event\":\"unsubscribe\"}".to_string())
    );
    assert_eq!(s.unsubscribe_from_stock("AAPL"), None);
    assert!(s.subscribe_to_stock("AAPL").is_some());
}

#[test]
fn proxy_first_message_decisions() {
    let c = config();
    let h = WebSocketProxyServer::handler_from_first_message(None, &c).expect("empty handler");
    assert_eq!(h.fetch_type, None);
    assert_eq!(h.target_uri, None);
    assert_eq!(h.tickers, None);

    let req = task(Some(vec![
        ("fetch_type".to_string(), ParamValue::Text("crypto".to_string())),
        ("tickers".to_string(), ParamValue::List(vec![Some("BTCUSD".to_string())])),
    ]));
    let h = WebSocketProxyServer::handler_from_first_message(Some(FirstMessage::Request(req)), &c).expect("parsed");
    assert_eq!(h.target_uri, Some("wss://crypto".to_string()));
    assert_eq!(h.tickers, Some(vec!["BTCUSD".to_string()]));

    let r = WebSocketProxyServer::handler_from_first_message(Some(FirstMessage::Invalid("bad json".to_string())), &c);
    assert_eq!(request_error(r), "bad json");
    let r = WebSocketProxyServer::handler_from_first_message(Some(FirstMessage::NotText("Binary([1])".to_string())), &c);
    assert_eq!(
        request_error(r),
        "Failed to parse JSON message. \n                                | Message: Binary([1])"
    );
    match WebSocketProxyServer::handler_from_first_message(Some(FirstMessage::Failed("reset".to_string())), &c) {
        Err(WebSocketError::ConnectError(m)) => assert_eq!(m, "reset"),
        _ => panic!("expected a connection error"),
    }
}

#[test]
fn crypto_and_forex_consumers_read_their_own_streams() {
    let tickers = vec!["EURUSD".to_string(), "GBPUSD".to_string()];
    let forex = ForexSocket::new(config());
    let plan = forex.stream_plan(&tickers);
    assert_eq!(plan.ws, "wss://forex");
    assert_eq!(plan.forward, None);
    assert_eq!(plan.tickers, tickers);
    let crypto = CryptoSocket::new(config());
    let plan = crypto.direct_stream_plan(&vec!["BTCUSD".to_string()]);
    assert_eq!(plan.ws, "wss://crypto");
    assert_eq!(plan.forward, None);
    assert_eq!(plan.tickers, vec!["BTCUSD".to_string()]);
}
