//! Coinbase adapter: channel and market tokens, the subscription
//! acknowledgement shape, and the connector describing its handshake.
use vstd::prelude::*;
use vstd::string::StringExecFns;
use crate::error::SubscribeError;
use crate::exchange::{Connector, ExchangeSub, Textual, WsMessage, DEFAULT_SUBSCRIPTION_TIMEOUT_MS};
use crate::model::ExchangeId;
use crate::subscription::{Identifier, PublicTrades, Subscription, SubscriptionMap};
use crate::validator::{
    is_valid_ack, lemma_valid_acks_validate, run_spec, SpecOutcome, ValidationEvent, Validator,
};
use crate::wire::{json_escape, json_escaped};

verus! {

/// Coinbase server base url.
pub const BASE_URL_COINBASE: &'static str = "wss://ws-feed.exchange.coinbase.com";

/// Coinbase feed-type token.
#[derive(Copy, Clone, PartialEq, Eq, Hash, Debug)]
pub struct CoinbaseChannel(pub &'static str);

impl View for CoinbaseChannel {
    type V = Seq<char>;

    open spec fn view(&self) -> Seq<char> {
        self.0@
    }
}

impl CoinbaseChannel {
    /// Coinbase real-time trades channel.
    pub fn trades() -> (r: Self)
        ensures
            r@ == "matches"@,
    {
        CoinbaseChannel("matches")
    }
}

impl Textual for CoinbaseChannel {
    fn as_ref(&self) -> (r: &str) {
        self.0
    }
}

/// Coinbase market token, in the exchange's own symbol format.
#[derive(PartialEq, Eq, Hash, Debug)]
pub struct CoinbaseMarket(pub String);

impl View for CoinbaseMarket {
    type V = Seq<char>;

    open spec fn view(&self) -> Seq<char> {
        self.0@
    }
}

impl CoinbaseMarket {
    pub fn new(market: &str) -> (r: Self)
        ensures
            r@ == market@,
    {
        CoinbaseMarket(market.to_owned())
    }
}

impl Textual for CoinbaseMarket {
    fn as_ref(&self) -> (r: &str) {
        self.0.as_str()
    }
}

/// Coinbase exchange.
#[derive(Copy, Clone, PartialEq, Eq, Structural, Debug)]
pub struct Coinbase;

impl Identifier<CoinbaseChannel> for Subscription<Coinbase, PublicTrades> {
    open spec fn id_chars(&self) -> Seq<char> {
        "matches"@
    }

    fn id(&self) -> (r: CoinbaseChannel) {
        CoinbaseChannel::trades()
    }
}

/// One decoded Coinbase subscription acknowledgement: the exchange either
/// confirms the subscriptions or answers with an error message.
#[derive(PartialEq, Eq, Debug)]
pub enum CoinbaseSubResponse {
    Subscribed,
    Error { reason: String },
}

impl Validator for CoinbaseSubResponse {
    open spec fn is_valid(&self) -> bool {
        self is Subscribed
    }

    open spec fn failure_reason(&self) -> Seq<char> {
        match self {
            CoinbaseSubResponse::Subscribed => Seq::empty(),
            CoinbaseSubResponse::Error { reason } => reason@,
        }
    }

    fn validate(self) -> (r: Result<Self, SubscribeError>) {
        match self {
            CoinbaseSubResponse::Subscribed => Ok(CoinbaseSubResponse::Subscribed),
            CoinbaseSubResponse::Error { reason } => Err(SubscribeError::Rejected { reason }),
        }
    }
}

/// The exact wire body of one Coinbase subscribe message for a channel and
/// market pair.
pub open spec fn coinbase_request_chars(channel: Seq<char>, market: Seq<char>) -> Seq<char> {
    "{\"type\":\"subscribe\",\"product_ids\":[\""@ + json_escaped(market)
        + "\"],\"channels\":[\""@ + json_escaped(channel) + "\"]}"@
}

/// Build the body of one Coinbase subscribe message.
pub fn coinbase_subscribe_body(channel: &str, market: &str) -> (r: String)
    ensures
        r@ == coinbase_request_chars(channel@, market@),
{
    let mut out = String::from_str("{\"type\":\"subscribe\",\"product_ids\":[\"");
    let escaped_market = json_escape(market);
    out.append(escaped_market.as_str());
    out.append("\"],\"channels\":[\"");
    let escaped_channel = json_escape(channel);
    out.append(escaped_channel.as_str());
    out.append("\"]}");
    proof {
        assert(out@ =~= coinbase_request_chars(channel@, market@));
    }
    out
}

impl Connector for Coinbase {
    type Channel = CoinbaseChannel;

    type Market = CoinbaseMarket;

    open spec fn id_spec() -> ExchangeId {
        ExchangeId::Coinbase
    }

    fn id() -> (r: ExchangeId) {
        ExchangeId::Coinbase
    }

    open spec fn base_url_spec() -> Seq<char> {
        BASE_URL_COINBASE@
    }

    fn base_url() -> (r: &'static str) {
        BASE_URL_COINBASE
    }

    /// One message per requested feed, each with the exact subscribe body
    /// for its channel and market, in the requests' order.
    open spec fn requests_ok(
        subs: Seq<ExchangeSub<CoinbaseChannel, CoinbaseMarket>>,
        out: Seq<WsMessage>,
    ) -> bool {
        out.len() == subs.len() && forall|i: int|
            0 <= i < out.len() ==> (#[trigger] out[i] matches WsMessage::Text(s) && s@
                == coinbase_request_chars(subs[i].channel@, subs[i].market@))
    }

    fn requests(exchange_subs: Vec<ExchangeSub<CoinbaseChannel, CoinbaseMarket>>) -> (r: Vec<
        WsMessage,
    >) {
        let n = exchange_subs.len();
        let mut out: Vec<WsMessage> = Vec::new();
        let mut i: usize = 0;
        while i < n
            invariant
                n == exchange_subs@.len(),
                0 <= i <= n,
                out@.len() == i,
                forall|k: int|
                    0 <= k < i ==> (#[trigger] out@[k] matches WsMessage::Text(s) && s@
                        == coinbase_request_chars(
                        exchange_subs@[k].channel@,
                        exchange_subs@[k].market@,
                    )),
            decreases n - i,
        {
            let sub = &exchange_subs[i];
            let body = coinbase_subscribe_body(sub.channel.as_ref(), sub.market.as_ref());
            out.push(WsMessage::Text(body));
            i += 1;
        }
        out
    }

    open spec fn subscription_timeout_ms_spec() -> u64 {
        DEFAULT_SUBSCRIPTION_TIMEOUT_MS
    }

    fn subscription_timeout_ms() -> (r: u64) {
        DEFAULT_SUBSCRIPTION_TIMEOUT_MS
    }

    /// Coinbase acknowledges each requested feed once.
    open spec fn expected_responses_spec(map_len: nat) -> nat {
        map_len
    }

    fn expected_responses<Kind>(map: &SubscriptionMap<Kind>) -> (r: usize) {
        map.len()
    }
}

/// Law: round trip. Build the wire requests for a set of subscriptions —
/// one message per feed — and feed the validator one accepting
/// acknowledgement per expected response: it reaches `Validated` with as
/// many successes as responses were expected, consuming exactly those
/// acknowledgements.
pub proof fn lemma_round_trip(
    subs: Seq<ExchangeSub<CoinbaseChannel, CoinbaseMarket>>,
    out: Seq<WsMessage>,
    map_len: nat,
    timeout_ms: u64,
    acks: Seq<ValidationEvent<CoinbaseSubResponse>>,
)
    requires
        Coinbase::requests_ok(subs, out),
        map_len == subs.len(),
        acks.len() == Coinbase::expected_responses_spec(map_len),
        forall|i: int| 0 <= i < acks.len() ==> is_valid_ack(#[trigger] acks[i]),
    ensures
        out.len() == subs.len(),
        run_spec(0nat, Coinbase::expected_responses_spec(map_len), timeout_ms, acks) == (
            SpecOutcome::Validated(Coinbase::expected_responses_spec(map_len)),
            acks.len(),
        ),
{
    lemma_valid_acks_validate(0nat, map_len, timeout_ms, acks, map_len);
}

} // verus!
