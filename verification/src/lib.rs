//! Verified core of a client for the Financial Modeling Prep market-data service:
//! REST request construction, request parsing for the websocket proxy, the
//! outgoing protocol messages, and the batching state machine of the stream
//! consumers.

pub mod text;
pub mod options;
pub mod config;
pub mod json;
pub mod request;
pub mod commodity;
pub mod index;
pub mod market;
pub mod mutualfund;
pub mod financial;
pub mod stock;
pub mod forex;
pub mod crypto;
pub mod websocket;
