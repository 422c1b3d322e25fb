use polyticker::crypto::CryptoTradeEvent;
use polyticker::event::{decode_batch, decode_envelope, Decoded, Feed, FeedEvent};
use polyticker::json::{Json, Number};
use polyticker::stocks::TradeEvent;
use polyticker::trade::{Currency, Trade, TradeError};
use polyticker::util::{Stocks, TimeUtil, MAX_UTC_SECS, MIN_UTC_SECS};

fn to_json(v: serde_json::Value) -> Json {
    match v {
        serde_json::Value::Null => Json::Null,
        serde_json::Value::Bool(b) => Json::Bool(b),
        serde_json::Value::Number(n) => {
            if let Some(u) = n.as_u64() {
                Json::Number(Number::PosInt(u))
            } else if let Some(i) = n.as_i64() {
                Json::Number(Number::NegInt(i))
            } else {
                Json::Number(Number::Float(n.as_f64().unwrap().to_bits()))
            }
        }
        serde_json::Value::String(s) => Json::Str(s),
        serde_json::Value::Array(a) => Json::Array(a.into_iter().map(to_json).collect()),
        serde_json::Value::Object(m) => Json::Object(m.into_iter().map(|(k, v)| (k, to_json(v))).collect()),
    }
}

fn parse(text: &str) -> Json {
    to_json(serde_json::from_str(text).unwrap())
}

const XT: &str = r#"{"ev":"XT","pair":"BTC-USD","p":42000.5,"s":0.01,"t":1690000000000,"x":1,"i":"abc","c":[1],"r":1690000000500}"#;

#[test]
fn crypto_envelope_round_trip() {
    let e = CryptoTradeEvent::from_value(&parse(XT)).unwrap().unwrap();
    assert_eq!(e.trade_id, "abc");
    assert_eq!(e.conditions, vec![1]);
    assert_eq!(e.size, Number::Float(0.01f64.to_bits()));
    assert_eq!(e.received_timestamp, 1690000000);
    let t = e.get_trade().unwrap();
    assert_eq!(t.symbol, "BTC");
    assert_eq!(t.currency, "USD");
    assert_eq!(t.price, Number::Float(42000.5f64.to_bits()));
    assert_eq!(t.exchange_id, 1);
    assert_eq!(t.timestamp, 1690000000);
    let when = chrono::DateTime::from_timestamp(t.timestamp, 0).unwrap();
    assert_eq!(when.to_rfc3339(), "2023-07-22T04:26:40+00:00");
}

#[test]
fn status_envelope_is_not_applicable() {
    let j = parse(r#"{"ev":"status","status":"connected","message":"Connected Successfully"}"#);
    assert!(matches!(CryptoTradeEvent::from_value(&j), Ok(None)));
    assert!(matches!(decode_envelope(Feed::Crypto, &j), Decoded::NotApplicable));
    assert!(matches!(decode_envelope(Feed::Stocks, &j), Decoded::NotApplicable));
}

#[test]
fn other_family_tag_is_not_applicable() {
    assert!(matches!(decode_envelope(Feed::Stocks, &parse(XT)), Decoded::NotApplicable));
    assert!(matches!(decode_envelope(Feed::Crypto, &parse("[1,2]")), Decoded::NotApplicable));
    assert!(matches!(decode_envelope(Feed::Crypto, &parse(r#"{"pair":"BTC-USD"}"#)), Decoded::NotApplicable));
}

#[test]
fn malformed_crypto_envelope_is_invalid() {
    let missing_price = r#"{"ev":"XT","pair":"BTC-USD","s":0.01,"t":1690000000000,"x":1,"i":"abc","c":[1],"r":1690000000500}"#;
    assert!(matches!(CryptoTradeEvent::from_value(&parse(missing_price)), Err(TradeError::Malformed)));
    let text_price = r#"{"ev":"XT","pair":"BTC-USD","p":"1","s":0.01,"t":1690000000000,"x":1,"i":"abc","c":[1],"r":1690000000500}"#;
    assert!(matches!(decode_envelope(Feed::Crypto, &parse(text_price)), Decoded::Invalid(TradeError::Malformed)));
    let wide_condition = r#"{"ev":"XT","pair":"BTC-USD","p":1,"s":0.01,"t":1690000000000,"x":1,"i":"abc","c":[3000000000],"r":1690000000500}"#;
    assert!(matches!(CryptoTradeEvent::from_value(&parse(wide_condition)), Err(TradeError::Malformed)));
    let far_time = r#"{"ev":"XT","pair":"BTC-USD","p":1,"s":0.01,"t":9000000000000000000,"x":1,"i":"abc","c":[],"r":1690000000500}"#;
    assert!(matches!(CryptoTradeEvent::from_value(&parse(far_time)), Err(TradeError::Malformed)));
}

#[test]
fn integer_price_is_kept_as_integer() {
    let text = r#"{"ev":"XT","pair":"ETH-EUR","p":1800,"s":2,"t":1000,"x":-4,"i":"z","c":[],"r":1999}"#;
    let t = CryptoTradeEvent::from_value(&parse(text)).unwrap().unwrap().get_trade().unwrap();
    assert_eq!(t.price, Number::PosInt(1800));
    assert_eq!(t.exchange_id, -4);
    assert_eq!(t.timestamp, 1);
    assert_eq!(t.symbol, "ETH");
    assert_eq!(t.currency, "EUR");
}

fn crypto_with_pair(pair: &str) -> CryptoTradeEvent {
    let mut e = CryptoTradeEvent::from_value(&parse(XT)).unwrap().unwrap();
    e.pair = pair.to_string();
    e
}

#[test]
fn pair_split_errors() {
    assert_eq!(crypto_with_pair("BTCUSD").get_trade().unwrap_err(), TradeError::NoCurrency);
    assert_eq!(crypto_with_pair("BTC-").get_trade().unwrap_err(), TradeError::NoCurrency);
    assert_eq!(crypto_with_pair("-USD").get_trade().unwrap_err(), TradeError::NoSymbol);
    assert_eq!(crypto_with_pair("").get_trade().unwrap_err(), TradeError::NoSymbol);
    let t = crypto_with_pair("BTC-USD-PERP").get_trade().unwrap();
    assert_eq!(t.symbol, "BTC");
    assert_eq!(t.currency, "USD");
}

const T: &str = r#"{"ev":"T","sym":"MSFT","x":4,"i":"12345","z":3,"p":114.125,"s":100,"c":[0,12],"t":1536036818784,"q":3681328}"#;

#[test]
fn stock_envelope_decodes_with_optional_fields_absent() {
    let e = TradeEvent::from_value(&parse(T)).unwrap().unwrap();
    assert_eq!(e.trade_reporting_facility_id, None);
    assert_eq!(e.trf_timestamp, None);
    assert_eq!(e.trade_conditions, vec![0, 12]);
    assert_eq!(e.tape, 3);
    let t = e.get_trade().unwrap();
    assert_eq!(t.symbol, "MSFT");
    assert_eq!(t.currency, "USD");
    assert_eq!(t.exchange_id, 4);
    assert_eq!(t.timestamp, 1536036818);
    assert_eq!(t.price, Number::Float(114.125f64.to_bits()));
}

#[test]
fn stock_optional_fields_null_present_and_mistyped() {
    let with_null = r#"{"ev":"T","sym":"A","x":4,"i":"1","z":3,"p":1,"s":1,"c":[],"t":1,"q":1,"trfi":null,"trft":7}"#;
    let e = TradeEvent::from_value(&parse(with_null)).unwrap().unwrap();
    assert_eq!(e.trade_reporting_facility_id, None);
    assert_eq!(e.trf_timestamp, Some(7));
    let mistyped = r#"{"ev":"T","sym":"A","x":4,"i":"1","z":3,"p":1,"s":1,"c":[],"t":1,"q":1,"trfi":"x"}"#;
    assert!(matches!(TradeEvent::from_value(&parse(mistyped)), Err(TradeError::Malformed)));
    let negative_size = r#"{"ev":"T","sym":"A","x":4,"i":"1","z":3,"p":1,"s":-1,"c":[],"t":1,"q":1}"#;
    assert!(matches!(decode_envelope(Feed::Stocks, &parse(negative_size)), Decoded::Invalid(TradeError::Malformed)));
}

#[test]
fn stock_trade_errors() {
    let mut e = TradeEvent::from_value(&parse(T)).unwrap().unwrap();
    e.exchange_id = u64::MAX;
    assert_eq!(e.get_trade().unwrap_err(), TradeError::SourceOutOfRange);
    e.exchange_id = 1;
    e.symbol = String::new();
    assert_eq!(FeedEvent::Stock(e).get_trade().unwrap_err(), TradeError::NoSymbol);
}

#[test]
fn batch_decodes_each_envelope_independently() {
    let bad = r#"{"ev":"XT","pair":"BTC-USD"}"#;
    let msg = format!("[{},{},{},{},{}]", r#"{"ev":"status","status":"ok"}"#, XT, bad, T, XT);
    let items = match parse(&msg) {
        Json::Array(items) => items,
        _ => panic!("not an array"),
    };
    let (events, rejected) = decode_batch(Feed::Crypto, &items);
    assert_eq!(events.len(), 2);
    assert_eq!(rejected, 1);
    let (events, rejected) = decode_batch(Feed::Stocks, &items);
    assert_eq!(events.len(), 1);
    assert_eq!(rejected, 0);
    let (events, rejected) = decode_batch(Feed::Crypto, &Vec::new());
    assert_eq!(events.len(), 0);
    assert_eq!(rejected, 0);
}

#[test]
fn timestamp_range_matches_the_calendar() {
    assert_eq!(TimeUtil::timestamp_milliseconds(1690000000500), Some(1690000000));
    assert_eq!(TimeUtil::timestamp_milliseconds(-1500), Some(-1));
    assert_eq!(TimeUtil::timestamp_milliseconds(-999), Some(0));
    assert_eq!(TimeUtil::timestamp_milliseconds(MAX_UTC_SECS * 1000 + 999), Some(MAX_UTC_SECS));
    assert_eq!(TimeUtil::timestamp_milliseconds((MAX_UTC_SECS + 1) * 1000), None);
    assert_eq!(TimeUtil::timestamp_milliseconds(MIN_UTC_SECS * 1000), Some(MIN_UTC_SECS));
    assert_eq!(TimeUtil::timestamp_milliseconds((MIN_UTC_SECS - 1) * 1000), None);
    assert_eq!(TimeUtil::timestamp_milliseconds(i64::MIN), None);
    assert_eq!(TimeUtil::timestamp_milliseconds(i64::MAX), None);
}

#[test]
fn defaults_and_currency_code() {
    assert!(!Stocks::default_is_otc_ticker());
    assert_eq!(Currency::USD.code(), "USD");
}
