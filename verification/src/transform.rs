//! Transformer stage: maps one raw inbound payload to zero, one or many
//! canonical events, after validation has completed. Stateless and stateful
//! strategies share one contract: the state is an explicit value, evolved
//! per call, never ambient.
use vstd::prelude::*;
use vstd::string::StringExecFns;
use crate::bitmex::{trade_event_matches, BitmexTradePayload};
use crate::error::NormalizationError;
use crate::event::{MarketEvent, MarketIter, PublicTrade};
use crate::model::ExchangeId;
use crate::subscription::{spec_find, PublicTrades, SubscriptionId, SubscriptionMap};

verus! {

/// A mapping stage from raw per-exchange payloads to canonical events.
/// Each call consumes one payload and yields one independently
/// success-or-failure result per contained record, in the payload's order.
pub trait Transformer: Sized {
    type Input;

    type Kind;

    /// The exact relation each implementation promises between its state
    /// before and after one call, the consumed payload, the stamped
    /// `received_time` and the produced results.
    spec fn transform_ok(
        self,
        post: Self,
        input: Self::Input,
        received_time: i64,
        out: Seq<Result<MarketEvent<Self::Kind>, NormalizationError>>,
    ) -> bool;

    fn transform(&mut self, input: Self::Input, received_time: i64) -> (r: Vec<
        Result<MarketEvent<Self::Kind>, NormalizationError>,
    >)
        ensures
            (*old(self)).transform_ok(*final(self), input, received_time, r@),
    ;
}

/// Stateless transformer for Bitmex trade batches: its output depends only
/// on the current payload and the immutable subscription map; its state
/// never changes.
#[derive(Debug)]
pub struct StatelessTransformer {
    pub exchange_id: ExchangeId,
    pub map: SubscriptionMap<PublicTrades>,
}

/// The subscription identity a Bitmex trade batch answers to:
/// `table.SYMBOL`, taken from the first record of the batch.
pub open spec fn payload_id_chars(input: BitmexTradePayload) -> Seq<char> {
    input.table@ + "."@ + input.data@[0].symbol@
}

impl Transformer for StatelessTransformer {
    type Input = BitmexTradePayload;

    type Kind = PublicTrade;

    /// An empty batch yields no events; a batch whose identity resolves in
    /// the map fans out one result per record against the resolved
    /// instrument; an unresolvable identity yields a single undeliverable
    /// error, never a silent drop. The state is unchanged.
    open spec fn transform_ok(
        self,
        post: Self,
        input: BitmexTradePayload,
        received_time: i64,
        out: Seq<Result<MarketEvent<PublicTrade>, NormalizationError>>,
    ) -> bool {
        post == self && if input.data@.len() == 0 {
            out =~= Seq::<Result<MarketEvent<PublicTrade>, NormalizationError>>::empty()
        } else {
            match spec_find(self.map.entries@, payload_id_chars(input)) {
                Some(j) => out.len() == input.data@.len() && forall|i: int|
                    0 <= i < out.len() ==> trade_event_matches(
                        #[trigger] out[i],
                        self.exchange_id,
                        self.map.entries@[j].instrument,
                        input.data@[i],
                        received_time,
                    ),
                None => out.len() == 1 && (out[0] matches Err(e)
                    && e matches NormalizationError::Unidentifiable { subscription_id }
                    && subscription_id@ == payload_id_chars(input)),
            }
        }
    }

    fn transform(&mut self, input: BitmexTradePayload, received_time: i64) -> (r: Vec<
        Result<MarketEvent<PublicTrade>, NormalizationError>,
    >) {
        if input.data.len() == 0 {
            return Vec::new();
        }
        let mut id_text = input.table.clone();
        id_text.append(".");
        id_text.append(input.data[0].symbol.as_str());
        let sid = SubscriptionId(id_text);
        proof {
            assert(sid@ =~= payload_id_chars(input));
        }
        match self.map.find_index(&sid) {
            Some(j) => {
                proof {
                    crate::subscription::lemma_spec_find_characterization(
                        self.map.entries@,
                        sid@,
                    );
                }
                let instrument = self.map.entries[j].instrument.clone_instrument();
                let iter = MarketIter::with_received_time(
                    self.exchange_id,
                    instrument,
                    input,
                    received_time,
                );
                proof {
                    assert forall|i: int| 0 <= i < iter.0@.len() implies trade_event_matches(
                        #[trigger] iter.0@[i],
                        self.exchange_id,
                        self.map.entries@[j as int].instrument,
                        input.data@[i],
                        received_time,
                    ) by {
                        assert(trade_event_matches(
                            iter.0@[i],
                            self.exchange_id,
                            instrument,
                            input.data@[i],
                            received_time,
                        ));
                    }
                }
                iter.0
            },
            None => {
                let mut out: Vec<Result<MarketEvent<PublicTrade>, NormalizationError>> =
                    Vec::new();
                out.push(Err(NormalizationError::Unidentifiable { subscription_id: sid.0 }));
                out
            },
        }
    }
}

/// Law: transformer fan-out is deterministic, per-record and
/// order-preserving. For a non-empty batch whose identity resolves, the
/// output has exactly one result per record, the result at each position
/// is `Ok` precisely when that record's exchange timestamp parses, and the
/// transformer state is unchanged.
pub proof fn lemma_transform_fanout(
    pre: StatelessTransformer,
    post: StatelessTransformer,
    input: BitmexTradePayload,
    received_time: i64,
    out: Seq<Result<MarketEvent<PublicTrade>, NormalizationError>>,
)
    requires
        pre.transform_ok(post, input, received_time, out),
        input.data@.len() > 0,
        spec_find(pre.map.entries@, payload_id_chars(input)) is Some,
    ensures
        post == pre,
        out.len() == input.data@.len(),
        forall|i: int|
            0 <= i < out.len() ==> (#[trigger] out[i] is Ok <==> crate::time::rfc3339_millis_of(
                input.data@[i].timestamp@,
            ) is Some),
{
    let j = spec_find(pre.map.entries@, payload_id_chars(input))->Some_0;
    assert forall|i: int| 0 <= i < out.len() implies (#[trigger] out[i] is Ok
        <==> crate::time::rfc3339_millis_of(input.data@[i].timestamp@) is Some) by {
        assert(trade_event_matches(
            out[i],
            pre.exchange_id,
            pre.map.entries@[j].instrument,
            input.data@[i],
            received_time,
        ));
    }
}

} // verus!
