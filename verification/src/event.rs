//! Canonical event model: the exchange-agnostic representation of a market
//! occurrence, timestamped twice (exchange-reported and locally received).
use vstd::prelude::*;
use crate::model::{Decimal, ExchangeId, Instrument, Side};
use crate::error::NormalizationError;

verus! {

/// A normalized public trade.
#[derive(PartialEq, Eq, Debug)]
pub struct PublicTrade {
    pub id: String,
    pub price: Decimal,
    pub amount: Decimal,
    pub side: Side,
}

/// One canonical market occurrence of kind `Kind`. Created exactly once per
/// normalized wire record and never mutated. `received_time` is stamped at
/// normalization time; no order between the two timestamps is guaranteed,
/// since clocks may be skewed across systems.
#[derive(PartialEq, Eq, Debug)]
pub struct MarketEvent<Kind> {
    /// Exchange-reported occurrence time, epoch milliseconds.
    pub exchange_time: i64,
    /// Local normalization time, epoch milliseconds.
    pub received_time: i64,
    pub exchange: ExchangeId,
    pub instrument: Instrument,
    pub kind: Kind,
}

/// The per-record results of normalizing one wire frame: fan-out yields
/// several, heartbeats none, and a malformed record inside a batch fails
/// alone without discarding its well-formed siblings.
#[derive(PartialEq, Eq, Debug)]
pub struct MarketIter<Kind>(pub Vec<Result<MarketEvent<Kind>, NormalizationError>>);

} // verus!
