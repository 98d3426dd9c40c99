//! The settings of the service: the API token and the websocket endpoints
//! and batching parameters.

use vstd::prelude::*;

verus! {

/// The API credentials.
#[derive(Debug, Clone)]
pub struct ApiConfig {
    pub token: String,
}

/// The websocket endpoints and the batching parameters of the consumers.
#[derive(Debug, Clone)]
pub struct WebSocketConfig {
    pub crypto_ws: String,
    pub forex_ws: String,
    pub stock_ws: String,
    pub fwd_stock_ws: String,
    pub buffer_size: usize,
    pub channel_bound: usize,
    pub batch_interval_ms: u64,
    pub shutdown_delay_ms: u64,
}

/// All settings.
#[derive(Debug, Clone)]
pub struct Config {
    pub api: ApiConfig,
    pub websocket: WebSocketConfig,
}

} // verus!
