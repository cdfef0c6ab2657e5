//! Market-data ingestion core: exchange connectors, the subscription
//! handshake validator, and the transformer that normalizes exchange
//! payloads into canonical market events.
pub mod bitmex;
pub mod bybit;
pub mod coinbase;
pub mod error;
pub mod event;
pub mod exchange;
pub mod model;
pub mod subscription;
pub mod time;
pub mod transform;
pub mod validator;
pub mod wire;
