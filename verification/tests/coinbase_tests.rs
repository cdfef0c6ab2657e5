use barter_data::coinbase::{
    coinbase_subscribe_body, Coinbase, CoinbaseChannel, CoinbaseMarket, CoinbaseSubResponse,
};
use barter_data::error::SubscribeError;
use barter_data::exchange::{Connector, ExchangeSub, Textual, WsMessage};
use barter_data::model::{ExchangeId, Instrument};
use barter_data::subscription::{
    Identifier, PublicTrades, Subscription, SubscriptionEntry, SubscriptionId, SubscriptionMap,
};
use barter_data::validator::{ValidationEvent, Validator, WebSocketSubValidator};
use barter_data::wire::json_escape;

fn sub(market: &str) -> ExchangeSub<CoinbaseChannel, CoinbaseMarket> {
    ExchangeSub { channel: CoinbaseChannel::trades(), market: CoinbaseMarket::new(market) }
}

fn map_for(markets: &[&str]) -> SubscriptionMap<PublicTrades> {
    SubscriptionMap {
        entries: markets
            .iter()
            .map(|m| SubscriptionEntry {
                id: SubscriptionId::new(&format!("matches.{m}")),
                instrument: Instrument::new("btc", "usd"),
                kind: PublicTrades,
            })
            .collect(),
    }
}

#[test]
fn requests_build_one_exact_body_per_subscription() {
    let out = Coinbase::requests(vec![sub("BTC-USD"), sub("ETH-USD")]);
    assert_eq!(
        out,
        vec![
            WsMessage::Text(
                "{\"type\":\"subscribe\",\"product_ids\":[\"BTC-USD\"],\"channels\":[\"matches\"]}"
                    .to_string()
            ),
            WsMessage::Text(
                "{\"type\":\"subscribe\",\"product_ids\":[\"ETH-USD\"],\"channels\":[\"matches\"]}"
                    .to_string()
            ),
        ]
    );
}

#[test]
fn request_bodies_are_valid_json_with_escaping() {
    let body = coinbase_subscribe_body("matches", "BTC\"USD\\");
    let value: serde_json::Value = serde_json::from_str(&body).expect("body parses as JSON");
    assert_eq!(value["type"], "subscribe");
    assert_eq!(value["product_ids"][0], "BTC\"USD\\");
    assert_eq!(value["channels"][0], "matches");
}

#[test]
fn json_escape_rewrites_special_characters() {
    assert_eq!(json_escape("plain"), "plain");
    assert_eq!(json_escape("a\"b\\c"), "a\\\"b\\\\c");
    assert_eq!(json_escape("a\nb\u{1}"), "a\\nb\\u0001");
}

#[test]
fn round_trip_requests_then_acks_validates() {
    let subs = vec![sub("BTC-USD"), sub("ETH-USD")];
    let requests = Coinbase::requests(subs);
    let map = map_for(&["BTC-USD", "ETH-USD"]);
    assert_eq!(requests.len(), 2);

    let expected = Coinbase::expected_responses(&map);
    assert_eq!(expected, 2);

    // One hand-constructed acknowledgement per wire request.
    let acks: Vec<ValidationEvent<CoinbaseSubResponse>> = requests
        .iter()
        .map(|_| ValidationEvent::Response(CoinbaseSubResponse::Subscribed))
        .collect();
    let result = WebSocketSubValidator::validate(
        map,
        expected,
        Coinbase::subscription_timeout_ms(),
        acks,
    );
    assert_eq!(result, Ok(map_for(&["BTC-USD", "ETH-USD"])));
}

#[test]
fn sub_response_validation() {
    assert_eq!(
        CoinbaseSubResponse::Subscribed.validate(),
        Ok(CoinbaseSubResponse::Subscribed)
    );
    assert_eq!(
        (CoinbaseSubResponse::Error { reason: "denied".to_string() }).validate(),
        Err(SubscribeError::Rejected { reason: "denied".to_string() })
    );
}

#[test]
fn connector_configuration() {
    assert_eq!(Coinbase::id(), ExchangeId::Coinbase);
    assert_eq!(Coinbase::base_url(), "wss://ws-feed.exchange.coinbase.com");
    assert_eq!(Coinbase::subscription_timeout_ms(), 10_000);
    assert_eq!(Coinbase::expected_responses(&map_for(&["BTC-USD"])), 1);
}

#[test]
fn trades_channel_identity() {
    let subscription = Subscription {
        exchange: Coinbase,
        instrument: Instrument::new("btc", "usd"),
        kind: PublicTrades,
    };
    let channel: CoinbaseChannel = subscription.id();
    assert_eq!(Textual::as_ref(&channel), "matches");
}
