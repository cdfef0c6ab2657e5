//! The connector contract: everything the generic machinery needs to know
//! about one exchange's handshake and endpoint, written once and
//! implemented per venue as pure configuration and mapping — no I/O.
use vstd::prelude::*;
use crate::model::ExchangeId;
use crate::subscription::SubscriptionMap;

verus! {

/// An outbound wire message for the transport to send.
#[derive(PartialEq, Eq, Debug)]
pub enum WsMessage {
    Text(String),
}

/// An exchange-specific token with a stable textual representation usable
/// to build wire requests.
pub trait Textual: View<V = Seq<char>> {
    fn as_ref(&self) -> (r: &str)
        ensures
            r@ == self@,
    ;
}

/// The identity of one requested feed: an exchange-specific channel and
/// market pair, used both to build the wire subscribe message and as a map
/// key.
#[derive(Debug)]
pub struct ExchangeSub<C, M> {
    pub channel: C,
    pub market: M,
}

/// Default handshake deadline, in milliseconds.
pub const DEFAULT_SUBSCRIPTION_TIMEOUT_MS: u64 = 10_000;

/// One exchange's handshake description. Implementations are pure
/// configuration: deterministic, side-effect free, no I/O.
pub trait Connector {
    type Channel: Textual;

    type Market: Textual;

    /// Stable identifier of the venue.
    spec fn id_spec() -> ExchangeId;

    fn id() -> (r: ExchangeId)
        ensures
            r == Self::id_spec(),
    ;

    /// Where to open the transport connection.
    spec fn base_url_spec() -> Seq<char>;

    fn base_url() -> (r: &'static str)
        ensures
            r@ == Self::base_url_spec(),
    ;

    /// The exact relation each venue promises between the requested
    /// subscriptions and the wire messages built for them.
    spec fn requests_ok(
        subs: Seq<ExchangeSub<Self::Channel, Self::Market>>,
        out: Seq<WsMessage>,
    ) -> bool;

    fn requests(exchange_subs: Vec<ExchangeSub<Self::Channel, Self::Market>>) -> (r: Vec<
        WsMessage,
    >)
        ensures
            Self::requests_ok(exchange_subs@, r@),
    ;

    /// Exchange-specific handshake deadline, in milliseconds.
    spec fn subscription_timeout_ms_spec() -> u64;

    fn subscription_timeout_ms() -> (r: u64)
        ensures
            r == Self::subscription_timeout_ms_spec(),
    ;

    /// How many acknowledgement frames constitute "fully subscribed", as a
    /// function of the subscription map's size.
    spec fn expected_responses_spec(map_len: nat) -> nat;

    fn expected_responses<Kind>(map: &SubscriptionMap<Kind>) -> (r: usize)
        ensures
            r as nat == Self::expected_responses_spec(map.spec_len()),
    ;
}

} // verus!
