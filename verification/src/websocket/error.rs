//! Errors of the websocket clients and of the proxy.

use vstd::prelude::*;
use vstd::string::StringExecFns;
use crate::json::{decimal_string, int_text};

verus! {

/// What went wrong in a websocket client or in the proxy. Each variant
/// carries the text of its cause.
#[derive(Debug)]
pub enum WebSocketError {
    ConnectError(String),
    SendError(String),
    ReceiveError(String),
    SerializationError(String),
    DeserializationError(String),
    BatchProcessingError(String),
    ChannelSendError(String),
    ForwardConnectionError(String),
    RequestError(String),
    LoginError(String),
    SubscriptionError(String),
    OtherError(String),
}

/// The text that introduces each kind of error.
pub open spec fn error_prefix(e: WebSocketError) -> Seq<char> {
    match e {
        WebSocketError::ConnectError(_) => "Failed to connect to WebSocket: "@,
        WebSocketError::SendError(_) => "Failed to send WebSocket message: "@,
        WebSocketError::ReceiveError(_) => "Failed to receive WebSocket message: "@,
        WebSocketError::SerializationError(_) => "Failed to serialize JSON message: "@,
        WebSocketError::DeserializationError(_) => "Failed to deserialize JSON message: "@,
        WebSocketError::BatchProcessingError(_) => "Batch processing error: "@,
        WebSocketError::ChannelSendError(_) => "Channel send error: "@,
        WebSocketError::ForwardConnectionError(_) => "Forward connection error: "@,
        WebSocketError::RequestError(_) => "Other error: "@,
        WebSocketError::LoginError(_) => "Other error: "@,
        WebSocketError::SubscriptionError(_) => "Other error: "@,
        WebSocketError::OtherError(_) => "Other error: "@,
    }
}

/// The cause an error carries.
pub open spec fn error_detail(e: WebSocketError) -> Seq<char> {
    match e {
        WebSocketError::ConnectError(s) => s@,
        WebSocketError::SendError(s) => s@,
        WebSocketError::ReceiveError(s) => s@,
        WebSocketError::SerializationError(s) => s@,
        WebSocketError::DeserializationError(s) => s@,
        WebSocketError::BatchProcessingError(s) => s@,
        WebSocketError::ChannelSendError(s) => s@,
        WebSocketError::ForwardConnectionError(s) => s@,
        WebSocketError::RequestError(s) => s@,
        WebSocketError::LoginError(s) => s@,
        WebSocketError::SubscriptionError(s) => s@,
        WebSocketError::OtherError(s) => s@,
    }
}

/// The message of an error: its prefix, then its cause.
pub open spec fn error_text(e: WebSocketError) -> Seq<char> {
    error_prefix(e) + error_detail(e)
}

impl WebSocketError {
    /// The message of the error.
    pub fn message(&self) -> (r: String)
        ensures
            r@ == error_text(*self),
    {
        let (prefix, detail) = match self {
            WebSocketError::ConnectError(s) => ("Failed to connect to WebSocket: ", s),
            WebSocketError::SendError(s) => ("Failed to send WebSocket message: ", s),
            WebSocketError::ReceiveError(s) => ("Failed to receive WebSocket message: ", s),
            WebSocketError::SerializationError(s) => ("Failed to serialize JSON message: ", s),
            WebSocketError::DeserializationError(s) => ("Failed to deserialize JSON message: ", s),
            WebSocketError::BatchProcessingError(s) => ("Batch processing error: ", s),
            WebSocketError::ChannelSendError(s) => ("Channel send error: ", s),
            WebSocketError::ForwardConnectionError(s) => ("Forward connection error: ", s),
            WebSocketError::RequestError(s) => ("Other error: ", s),
            WebSocketError::LoginError(s) => ("Other error: ", s),
            WebSocketError::SubscriptionError(s) => ("Other error: ", s),
            WebSocketError::OtherError(s) => ("Other error: ", s),
        };
        let mut r = String::from_str(prefix);
        r.append(detail.as_str());
        r
    }
}

/// Why a stream consumer stopped.
#[derive(Debug, Clone, Copy, PartialEq, Eq, Structural)]
pub enum ErrorStatus {
    ConsumptionFailed(i16),
}

impl ErrorStatus {
    /// The status code, in decimal.
    pub fn message(&self) -> (r: String)
        ensures
            r@ == (match *self {
                ErrorStatus::ConsumptionFailed(code) => int_text(code as int),
            }),
    {
        match self {
            ErrorStatus::ConsumptionFailed(code) => decimal_string(*code as i64),
        }
    }
}

/// The message of a consumer's error, led by the consumer's name.
pub open spec fn consumer_error_text(name: Seq<char>, status: ErrorStatus, wrapped: WebSocketError) -> Seq<char> {
    let code = match status {
        ErrorStatus::ConsumptionFailed(c) => int_text(c as int),
    };
    name + "(status: "@ + code + ", wrapped: "@ + error_text(wrapped) + ")"@
}

/// Builds the message of a consumer's error.
fn consumer_error_message(name: &str, status: &ErrorStatus, wrapped: &WebSocketError) -> (r: String)
    ensures
        r@ == consumer_error_text(name@, *status, *wrapped),
{
    let mut r = String::from_str(name);
    r.append("(status: ");
    let code = status.message();
    r.append(code.as_str());
    r.append(", wrapped: ");
    let inner = wrapped.message();
    r.append(inner.as_str());
    r.append(")");
    r
}

/// The error of the stock stream consumer.
#[derive(Debug)]
pub struct StockError {
    pub wrapped: WebSocketError,
    pub status: ErrorStatus,
}

impl StockError {
    /// The error of a failed consumption.
    pub fn consumption_failed(wrapped: WebSocketError) -> (r: StockError)
        ensures
            r.wrapped == wrapped,
            r.status == ErrorStatus::ConsumptionFailed(0),
    {
        StockError { wrapped, status: ErrorStatus::ConsumptionFailed(0) }
    }

    /// The message of the error.
    pub fn message(&self) -> (r: String)
        ensures
            r@ == consumer_error_text("StockError"@, self.status, self.wrapped),
    {
        consumer_error_message("StockError", &self.status, &self.wrapped)
    }
}

/// The error of the crypto stream consumer.
#[derive(Debug)]
pub struct CryptoError {
    pub wrapped: WebSocketError,
    pub status: ErrorStatus,
}

impl CryptoError {
    /// The error of a failed consumption.
    pub fn consumption_failed(wrapped: WebSocketError) -> (r: CryptoError)
        ensures
            r.wrapped == wrapped,
            r.status == ErrorStatus::ConsumptionFailed(0),
    {
        CryptoError { wrapped, status: ErrorStatus::ConsumptionFailed(0) }
    }

    /// The message of the error.
    pub fn message(&self) -> (r: String)
        ensures
            r@ == consumer_error_text("CryptoError"@, self.status, self.wrapped),
    {
        consumer_error_message("CryptoError", &self.status, &self.wrapped)
    }
}

} // verus!
