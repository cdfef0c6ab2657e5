//! Error taxonomy of the ingestion core. Handshake failures are terminal for
//! a connection attempt; normalization failures are per-record and leave the
//! event stream running.
use vstd::prelude::*;

verus! {

/// Why a subscription handshake failed. Every variant is terminal: the
/// caller must restart the whole connect-and-subscribe cycle.
#[derive(PartialEq, Eq, Debug)]
pub enum SubscribeError {
    /// The handshake deadline elapsed; carries the configured deadline in
    /// milliseconds for diagnostics.
    Timeout { timeout_ms: u64 },
    /// The transport stream ended before the handshake completed.
    StreamTerminated,
    /// The exchange explicitly rejected a subscription; carries the
    /// exchange's diagnostic text verbatim.
    Rejected { reason: String },
    /// The transport delivered a close frame during the handshake.
    ClosedDuringHandshake { reason: String },
}

/// Why one wire record could not be mapped to a canonical event. Surfaced
/// inline in the event sequence; the stream continues.
#[derive(PartialEq, Eq, Debug)]
pub enum NormalizationError {
    /// The record's exchange timestamp was missing or unparseable.
    InvalidTimestamp { raw: String },
    /// The record's subscription identity does not resolve in the
    /// subscription map, so the event is undeliverable.
    Unidentifiable { subscription_id: String },
}

} // verus!
