//! The websocket side: the proxy's request handling, the protocol messages
//! sent upstream, and the batching of streamed updates.

pub mod error;
pub mod messages;
pub mod batch;
pub mod proxy;
pub mod sockets;
