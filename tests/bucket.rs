use polyticker::crypto::CryptoTradeEvent;
use polyticker::event::FeedEvent;
use polyticker::exchange::Bucket;
use polyticker::json::Number;
use polyticker::trade::TradeError;

fn trade(pair: &str, source: i64, price: u64) -> FeedEvent {
    FeedEvent::Crypto(CryptoTradeEvent {
        event_type: "XT".to_string(),
        pair: pair.to_string(),
        price: Number::PosInt(price),
        timestamp: 1690000000,
        size: Number::PosInt(1),
        conditions: vec![1],
        trade_id: "id".to_string(),
        exchange_id: source,
        received_timestamp: 1690000000,
    })
}

#[test]
fn same_source_latest_wins() {
    let mut b = Bucket::new("BTC", "USD");
    b.add_trade(trade("BTC-USD", 7, 100)).unwrap();
    b.add_trade(trade("BTC-USD", 7, 200)).unwrap();
    let snap = b.snapshot();
    assert_eq!(snap.len(), 1);
    assert_eq!(snap[0].0, 7);
    assert_eq!(snap[0].1.price, Number::PosInt(200));
}

#[test]
fn mismatched_symbol_is_refused() {
    let mut b = Bucket::new("BTC", "USD");
    b.add_trade(trade("BTC-USD", 2, 100)).unwrap();
    assert_eq!(b.add_trade(trade("ETH-USD", 3, 5)), Err(TradeError::Mismatch));
    assert_eq!(b.add_trade(trade("BTC-EUR", 2, 5)), Err(TradeError::Mismatch));
    let snap = b.snapshot();
    assert_eq!(snap.len(), 1);
    assert_eq!(snap[0].0, 2);
    assert_eq!(snap[0].1.price, Number::PosInt(100));
    assert_eq!(snap[0].1.symbol, "BTC");
}

#[test]
fn trade_without_record_is_refused() {
    let mut b = Bucket::new("BTC", "USD");
    assert_eq!(b.add_trade(trade("BTCUSD", 1, 1)), Err(TradeError::NoCurrency));
    assert!(b.snapshot().is_empty());
}

#[test]
fn snapshot_is_ordered_by_source() {
    let mut b = Bucket::new("BTC", "USD");
    for s in [5, 1, 3] {
        b.add_trade(trade("BTC-USD", s, s as u64)).unwrap();
    }
    let ids: Vec<i64> = b.snapshot().iter().map(|(id, _)| *id).collect();
    assert_eq!(ids, vec![1, 3, 5]);
    b.add_trade(trade("BTC-USD", -2, 9)).unwrap();
    b.add_trade(trade("BTC-USD", 4, 9)).unwrap();
    let ids: Vec<i64> = b.snapshot().iter().map(|(id, _)| *id).collect();
    assert_eq!(ids, vec![-2, 1, 3, 4, 5]);
    assert_eq!(b.snapshot().len(), 5);
}
