use barter_data::bitmex::{BitmexMessage, BitmexTrade, BitmexTradePayload};
use barter_data::error::NormalizationError;
use barter_data::event::MarketIter;
use barter_data::model::{Decimal, ExchangeId, Instrument, Side};
use barter_data::subscription::{PublicTrades, SubscriptionEntry, SubscriptionId, SubscriptionMap};
use barter_data::transform::{StatelessTransformer, Transformer};

const GOOD_TS: &str = "2023-02-18T09:27:59.701Z";

fn trade(timestamp: &str, id: &str) -> BitmexTrade {
    BitmexTrade {
        timestamp: timestamp.to_string(),
        symbol: "XBTUSD".to_string(),
        side: Side::Sell,
        amount: Decimal { mantissa: 200, scale: 0 },
        price: Decimal { mantissa: 245645, scale: 1 },
        id: id.to_string(),
    }
}

fn payload(data: Vec<BitmexTrade>) -> BitmexTradePayload {
    BitmexMessage { table: "trade".to_string(), action: "insert".to_string(), data }
}

fn transformer() -> StatelessTransformer {
    StatelessTransformer {
        exchange_id: ExchangeId::Bitmex,
        map: SubscriptionMap {
            entries: vec![SubscriptionEntry {
                id: SubscriptionId::new("trade.XBTUSD"),
                instrument: Instrument::new("btc", "usd"),
                kind: PublicTrades,
            }],
        },
    }
}

#[test]
fn batch_with_one_invalid_record_fans_out_per_record() {
    let mut t = transformer();
    let input = payload(vec![
        trade(GOOD_TS, "trade-a"),
        trade("not a timestamp", "trade-b"),
        trade(GOOD_TS, "trade-c"),
    ]);
    let out = t.transform(input, 77);
    assert_eq!(out.len(), 3);

    let expected_ms = chrono::DateTime::parse_from_rfc3339(GOOD_TS)
        .unwrap()
        .timestamp_millis();

    let first = out[0].as_ref().expect("first record is well-formed");
    assert_eq!(first.exchange_time, expected_ms);
    assert_eq!(first.received_time, 77);
    assert_eq!(first.exchange, ExchangeId::Bitmex);
    assert_eq!(first.instrument, Instrument::new("btc", "usd"));
    assert_eq!(first.kind.id, "trade-a");
    assert_eq!(first.kind.price, Decimal { mantissa: 245645, scale: 1 });
    assert_eq!(first.kind.amount, Decimal { mantissa: 200, scale: 0 });
    assert_eq!(first.kind.side, Side::Sell);

    assert_eq!(
        out[1],
        Err(NormalizationError::InvalidTimestamp { raw: "not a timestamp".to_string() })
    );

    let third = out[2].as_ref().expect("third record is well-formed");
    assert_eq!(third.kind.id, "trade-c");
}

#[test]
fn transform_is_deterministic_across_runs() {
    let input = || payload(vec![trade(GOOD_TS, "a"), trade("bad", "b")]);
    let mut t1 = transformer();
    let mut t2 = transformer();
    assert_eq!(t1.transform(input(), 5), t2.transform(input(), 5));
}

#[test]
fn unknown_subscription_id_yields_undeliverable_error() {
    let mut t = transformer();
    let mut record = trade(GOOD_TS, "x");
    record.symbol = "ETHUSD".to_string();
    let out = t.transform(payload(vec![record]), 5);
    assert_eq!(
        out,
        vec![Err(NormalizationError::Unidentifiable { subscription_id: "trade.ETHUSD".to_string() })]
    );
}

#[test]
fn empty_batch_yields_no_events() {
    let mut t = transformer();
    let out = t.transform(payload(vec![]), 5);
    assert!(out.is_empty());
}

#[test]
fn market_iter_preserves_order_and_count() {
    let input = payload(vec![trade(GOOD_TS, "a"), trade(GOOD_TS, "b")]);
    let MarketIter(events) = MarketIter::with_received_time(
        ExchangeId::Bitmex,
        Instrument::new("btc", "usd"),
        input,
        9,
    );
    assert_eq!(events.len(), 2);
    assert_eq!(events[0].as_ref().unwrap().kind.id, "a");
    assert_eq!(events[1].as_ref().unwrap().kind.id, "b");
}

#[test]
fn market_iter_from_stamps_local_clock() {
    let before = chrono::Utc::now().timestamp_millis();
    let input = payload(vec![trade(GOOD_TS, "a")]);
    let MarketIter(events) =
        MarketIter::from(ExchangeId::Bitmex, Instrument::new("btc", "usd"), input);
    let after = chrono::Utc::now().timestamp_millis();
    let event = events[0].as_ref().unwrap();
    assert!(before <= event.received_time && event.received_time <= after);
}

#[test]
fn exchange_time_depends_on_the_record_timestamp() {
    let input = payload(vec![
        trade("2023-02-18T09:27:59.701Z", "a"),
        trade("2023-02-18T09:28:00.000Z", "b"),
        trade("2023-02-18", "c"),
    ]);
    let MarketIter(events) = MarketIter::with_received_time(
        ExchangeId::Bitmex,
        Instrument::new("btc", "usd"),
        input,
        9,
    );
    let a = events[0].as_ref().unwrap().exchange_time;
    let b = events[1].as_ref().unwrap().exchange_time;
    assert_eq!(b - a, 299);
    assert!(events[2].is_err());
}
