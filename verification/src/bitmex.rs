//! Bitmex adapter types: the decoded shape of a real-time trade message and
//! its normalization into canonical events.
use vstd::prelude::*;
use crate::error::NormalizationError;
use crate::event::{MarketEvent, MarketIter, PublicTrade};
use crate::model::{Decimal, ExchangeId, Instrument, Side};
use crate::time::{now_millis, parse_rfc3339_millis, rfc3339_millis_of};

verus! {

/// One decoded trade record from a Bitmex message. The exchange timestamp
/// is kept as the RFC 3339 text it arrived as; parsing it is part of
/// normalization, so a bad timestamp fails that record alone.
#[derive(PartialEq, Eq, Debug)]
pub struct BitmexTrade {
    pub timestamp: String,
    pub symbol: String,
    pub side: Side,
    pub amount: Decimal,
    pub price: Decimal,
    pub id: String,
}

/// Envelope of a Bitmex WebSocket message: a table name, an action, and a
/// batch of records.
#[derive(PartialEq, Eq, Debug)]
pub struct BitmexMessage<T> {
    pub table: String,
    pub action: String,
    pub data: Vec<T>,
}

/// A Bitmex real-time trades message.
pub type BitmexTradePayload = BitmexMessage<BitmexTrade>;

/// How one normalized result answers for one wire record: a parseable
/// exchange timestamp yields exactly the canonical event carrying the
/// record's fields; an unparseable one yields the per-record error.
pub open spec fn trade_event_matches(
    res: Result<MarketEvent<PublicTrade>, NormalizationError>,
    exchange_id: ExchangeId,
    instrument: Instrument,
    trade: BitmexTrade,
    received_time: i64,
) -> bool {
    match rfc3339_millis_of(trade.timestamp@) {
        Some(t) => res matches Ok(ev) && ev.exchange_time == t && ev.received_time
            == received_time && ev.exchange == exchange_id && ev.instrument.chars()
            == instrument.chars() && ev.kind.id@ == trade.id@ && ev.kind.price == trade.price
            && ev.kind.amount == trade.amount && ev.kind.side == trade.side,
        None => res matches Err(e) && e matches NormalizationError::InvalidTimestamp { raw }
            && raw@ == trade.timestamp@,
    }
}

/// Whole-batch form of [`trade_event_matches`]: one result per record, in
/// the records' original order.
pub open spec fn events_match_all(
    res: Seq<Result<MarketEvent<PublicTrade>, NormalizationError>>,
    exchange_id: ExchangeId,
    instrument: Instrument,
    data: Seq<BitmexTrade>,
    received_time: i64,
) -> bool {
    res.len() == data.len() && forall|i: int|
        0 <= i < res.len() ==> trade_event_matches(
            #[trigger] res[i],
            exchange_id,
            instrument,
            data[i],
            received_time,
        )
}

impl MarketIter<PublicTrade> {
    /// Normalize a Bitmex trade batch with an explicit `received_time`
    /// stamp, one result per record, order preserved.
    pub fn with_received_time(
        exchange_id: ExchangeId,
        instrument: Instrument,
        trades: BitmexTradePayload,
        received_time: i64,
    ) -> (r: Self)
        ensures
            events_match_all(r.0@, exchange_id, instrument, trades.data@, received_time),
    {
        let n = trades.data.len();
        let mut out: Vec<Result<MarketEvent<PublicTrade>, NormalizationError>> = Vec::new();
        let mut i: usize = 0;
        while i < n
            invariant
                n == trades.data@.len(),
                0 <= i <= n,
                out@.len() == i,
                forall|k: int|
                    0 <= k < i ==> trade_event_matches(
                        #[trigger] out@[k],
                        exchange_id,
                        instrument,
                        trades.data@[k],
                        received_time,
                    ),
            decreases n - i,
        {
            let trade = &trades.data[i];
            match parse_rfc3339_millis(trade.timestamp.as_str()) {
                Some(exchange_time) => {
                    out.push(
                        Ok(
                            MarketEvent {
                                exchange_time,
                                received_time,
                                exchange: exchange_id,
                                instrument: instrument.clone_instrument(),
                                kind: PublicTrade {
                                    id: trade.id.clone(),
                                    price: trade.price,
                                    amount: trade.amount,
                                    side: trade.side,
                                },
                            },
                        ),
                    );
                },
                None => {
                    out.push(
                        Err(NormalizationError::InvalidTimestamp { raw: trade.timestamp.clone() }),
                    );
                },
            }
            i += 1;
        }
        MarketIter(out)
    }

    /// Normalize a Bitmex trade batch, stamping every record with the local
    /// clock read once at transformation time.
    pub fn from(exchange_id: ExchangeId, instrument: Instrument, trades: BitmexTradePayload) -> (r:
        Self)
        ensures
            exists|t: i64| #[trigger] events_match_all(r.0@, exchange_id, instrument, trades.data@, t),
    {
        let received_time = now_millis();
        let r = Self::with_received_time(exchange_id, instrument, trades, received_time);
        proof {
            assert(events_match_all(r.0@, exchange_id, instrument, trades.data@, received_time));
        }
        r
    }
}

} // verus!
