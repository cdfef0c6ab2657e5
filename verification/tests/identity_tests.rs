use barter_data::bybit::{Bybit, BybitMarket};
use barter_data::model::Instrument;
use barter_data::subscription::{
    Identifier, PublicTrades, SubscriptionEntry, SubscriptionId, SubscriptionMap, Subscription,
};

fn entry(id: &str) -> SubscriptionEntry<PublicTrades> {
    SubscriptionEntry {
        id: SubscriptionId::new(id),
        instrument: Instrument::new("btc", "usd"),
        kind: PublicTrades,
    }
}

#[test]
fn bybit_market_identity_is_uppercased_pair() {
    let subscription = Subscription {
        exchange: Bybit,
        instrument: Instrument::new("btc", "usdt"),
        kind: PublicTrades,
    };
    let market: BybitMarket = subscription.id();
    assert_eq!(market.as_ref(), "BTCUSDT");
}

#[test]
fn map_lookup_finds_first_match_and_rejects_unknown() {
    let map = SubscriptionMap {
        entries: vec![entry("trade.XBTUSD"), entry("trade.ETHUSD")],
    };
    assert_eq!(map.len(), 2);
    assert_eq!(map.find_index(&SubscriptionId::new("trade.XBTUSD")), Some(0));
    assert_eq!(map.find_index(&SubscriptionId::new("trade.ETHUSD")), Some(1));
    assert_eq!(map.find_index(&SubscriptionId::new("trade.SOLUSD")), None);
}

#[test]
fn map_lookup_with_duplicate_ids_resolves_to_first() {
    let map = SubscriptionMap {
        entries: vec![entry("trade.XBTUSD"), entry("trade.XBTUSD")],
    };
    assert_eq!(map.find_index(&SubscriptionId::new("trade.XBTUSD")), Some(0));
}
