use binance_stream::{AggTrade, BookTicker, Json, Message, PartialDepth, Price, Symbol};
use rust_decimal::prelude::FromPrimitive;
use rust_decimal::Decimal;
use serde_json::Value;

const AGGTRADEMSG: &str = r#"
{
  "e":"aggTrade",
  "E":1591261134288,
  "a":424951,
  "s":"BTCUSDT",
  "p":"9643.5",
  "q":"2",
  "f":606073,
  "l":606073,
  "T":1591261134199,
  "m":false
}
"#;

const REALOB: &str = r#"{
"lastUpdateId":55130421061,
"bids":[
["98655.99000000","7.22497000"],
["98655.98000000","0.20352000"],
["98655.31000000","0.00100000"],
["98654.83000000","0.20251000"],
["98654.51000000","0.39110000"]],
"asks":[
["98656.00000000","0.00892000"],
["98656.01000000","0.00152000"],
["98656.02000000","0.00007000"],
["98656.04000000","0.00014000"],
["98659.98000000","0.00006000"]]}"#;

const BOOKTICKER: &str = r#"{
"u":400900217,
"s":"BNBUSDT",
"b":"25.35190000",
"B":"31.21000000",
"a":"25.36520000",
"A":"40.66000000"
}"#;

fn to_json(v: Value) -> Json {
    match v {
        Value::Null => Json::Null,
        Value::Bool(b) => Json::Bool(b),
        Value::Number(n) => match n.as_u64() {
            Some(u) => Json::UInt(u),
            None => Json::OtherNumber,
        },
        Value::String(s) => Json::Str(s),
        Value::Array(items) => Json::Array(items.into_iter().map(to_json).collect()),
        Value::Object(members) => {
            Json::Object(members.into_iter().map(|(k, v)| (k, to_json(v))).collect())
        }
    }
}

fn decode(text: &str) -> Option<Message> {
    let value: Value = serde_json::from_str(text).unwrap();
    Message::decode(&to_json(value))
}

fn dec(p: Price) -> Decimal {
    Decimal::from_i128_with_scale(p.mantissa, p.scale)
}

fn level(p: f64, q: f64) -> [Decimal; 2] {
    [Decimal::from_f64(p).unwrap(), Decimal::from_f64(q).unwrap()]
}

fn levels(rows: &[[Price; 2]]) -> Vec<[Decimal; 2]> {
    rows.iter().map(|r| [dec(r[0]), dec(r[1])]).collect()
}

fn book_ticker(text: &str) -> BookTicker {
    match decode(text) {
        Some(Message::BookTicker(bt)) => bt,
        other => panic!("not a book ticker: {other:?}"),
    }
}

fn partial_depth(text: &str) -> PartialDepth {
    match decode(text) {
        Some(Message::PartialDepth(pd)) => pd,
        other => panic!("not a partial depth: {other:?}"),
    }
}

fn agg_trade(text: &str) -> AggTrade {
    match decode(text) {
        Some(Message::AggTrade(t)) => t,
        other => panic!("not an aggregate trade: {other:?}"),
    }
}

#[test]
fn book_ticker_parsing() {
    let parsed_bt = book_ticker(BOOKTICKER);

    assert_eq!(parsed_bt.update_id, 400900217);
    assert_eq!(parsed_bt.symbol, Symbol::BNBUSDT);
    assert_eq!(dec(parsed_bt.best_bid_price), Decimal::from_f64(25.35190000).unwrap());
    assert_eq!(dec(parsed_bt.best_bid_qty), Decimal::from_f64(31.21000000).unwrap());
    assert_eq!(dec(parsed_bt.best_ask_price), Decimal::from_f64(25.36520000).unwrap());
    assert_eq!(dec(parsed_bt.best_ask_qty), Decimal::from_f64(40.66000000).unwrap());
}

#[test]
fn partial_ob_parsing() {
    let ob_msg = partial_depth(REALOB);

    assert_eq!(ob_msg.last_update_id, 55130421061);
    let bids = vec![
        level(98655.99000000, 7.22497000),
        level(98655.98000000, 0.20352000),
        level(98655.31000000, 0.00100000),
        level(98654.83000000, 0.20251000),
        level(98654.51000000, 0.39110000),
    ];
    let asks = vec![
        level(98656.00000000, 0.00892000),
        level(98656.01000000, 0.00152000),
        level(98656.02000000, 0.00007000),
        level(98656.04000000, 0.00014000),
        level(98659.98000000, 0.00006000),
    ];
    assert_eq!(levels(&ob_msg.bids), bids);
    assert_eq!(levels(&ob_msg.asks), asks);
}

#[test]
fn partial_ob_binance_message() {
    let ob_msg = decode(REALOB).unwrap();
    match ob_msg {
        Message::PartialDepth(_partial_depth) => assert_eq!(1, 1),
        _ => panic!("test failed"),
    };
}

#[test]
fn aggtrade_message_parsing() {
    let msg = agg_trade(AGGTRADEMSG);
    assert_eq!(msg.event_time, 1591261134288);
    assert_eq!(msg.trade_id, 424951);
    assert_eq!(msg.symbol, Symbol::BTCUSDT);
    assert_eq!(dec(msg.price), Decimal::from_f64(9643.5).unwrap());
    assert_eq!(dec(msg.quantity), Decimal::from_f32(2.0).unwrap());
    assert_eq!(msg.first_trade_id, 606073);
    assert_eq!(msg.last_trade_id, 606073);
    assert_eq!(msg.trade_time, 1591261134199);
    assert!(!msg.is_market_maker);
}

#[test]
fn api_message_aggtrade() {
    let t = AggTrade {
        event_time: 1591261134288,
        trade_id: 424951,
        symbol: Symbol::BTCUSDT,
        price: Price::new(96435, 1),
        quantity: Price::new(2, 0),
        first_trade_id: 606073,
        last_trade_id: 606073,
        trade_time: 1591261134199,
        is_market_maker: false,
    };
    let t = Message::AggTrade(t);

    let msg = decode(AGGTRADEMSG).unwrap();

    assert_eq!(t, msg);
    if let Message::AggTrade(a) = msg {
        assert_eq!(dec(a.price), Decimal::from_f64(9643.5).unwrap());
    }
}

#[test]
fn decimal_fields_keep_the_literal_exactly() {
    let bt = book_ticker(BOOKTICKER);
    assert_eq!(bt.best_bid_price, Price::new(2535190000, 8));
    assert_eq!(bt.best_bid_qty, Price::new(3121000000, 8));
    assert_eq!(bt.best_ask_price, Price::new(2536520000, 8));
    assert_eq!(bt.best_ask_qty, Price::new(4066000000, 8));
}

#[test]
fn order_book_levels_keep_source_order() {
    let pd = partial_depth(REALOB);
    assert_eq!(pd.bids.len(), 5);
    assert_eq!(pd.asks.len(), 5);
    assert_eq!(pd.bids[0], [Price::new(9865599000000, 8), Price::new(722497000, 8)]);
    assert_eq!(pd.bids[4], [Price::new(9865451000000, 8), Price::new(39110000, 8)]);
    assert_eq!(pd.asks[0], [Price::new(9865600000000, 8), Price::new(892000, 8)]);
    assert_eq!(pd.asks[4], [Price::new(9865998000000, 8), Price::new(6000, 8)]);
}

#[test]
fn subscribe_ack_decodes() {
    assert_eq!(
        decode(r#"{"result":null,"id":1}"#),
        Some(Message::SubscribeSuccess { result: None, id: 1 })
    );
    assert_eq!(
        decode(r#"{"id":7}"#),
        Some(Message::SubscribeSuccess { result: None, id: 7 })
    );
    assert_eq!(
        decode(r#"{"result":"ok","id":255}"#),
        Some(Message::SubscribeSuccess { result: Some("ok".to_string()), id: 255 })
    );
}

#[test]
fn subscribe_ack_id_out_of_range_is_rejected() {
    assert_eq!(decode(r#"{"result":null,"id":256}"#), None);
    assert_eq!(decode(r#"{"result":3,"id":1}"#), None);
}

#[test]
fn malformed_payloads_do_not_decode() {
    assert_eq!(decode(r#"{"foo":1}"#), None);
    assert_eq!(decode(r#"[1,2,3]"#), None);
    assert_eq!(decode(r#""text""#), None);
    // unknown symbol
    assert_eq!(decode(&BOOKTICKER.replace("BNBUSDT", "NOPE")), None);
    // a book level with three entries
    let bad = r#"{"lastUpdateId":1,"bids":[["1","2","3"]],"asks":[]}"#;
    assert_eq!(decode(bad), None);
    // a decimal that is not a number
    assert_eq!(decode(&AGGTRADEMSG.replace("9643.5", "x")), None);
    // a trade id that does not fit in 32 bits
    assert_eq!(decode(&AGGTRADEMSG.replace("\"f\":606073", "\"f\":4294967296")), None);
}

#[test]
fn aggregate_trade_accepts_long_names() {
    let text = r#"{"event_time":1,"trade_id":2,"symbol":"ETHBTC","price":"0.5","quantity":"1.25",
        "first_trade_id":3,"last_trade_id":4,"trade_time":5,"is_market_maker":true}"#;
    let t = agg_trade(text);
    assert_eq!(t.symbol, Symbol::ETHBTC);
    assert_eq!(t.price, Price::new(5, 1));
    assert_eq!(t.quantity, Price::new(125, 2));
    assert!(t.is_market_maker);
    // the same member under both names is rejected
    let both = AGGTRADEMSG.replace("\"m\":false", "\"m\":false, \"is_market_maker\":false");
    assert_eq!(decode(&both), None);
}

#[test]
fn empty_order_book_decodes() {
    let pd = partial_depth(r#"{"lastUpdateId":9,"bids":[],"asks":[]}"#);
    assert_eq!(pd.last_update_id, 9);
    assert!(pd.bids.is_empty() && pd.asks.is_empty());
}

#[test]
fn price_parse() {
    assert_eq!(Price::parse("9643.5"), Some(Price::new(96435, 1)));
    assert_eq!(Price::parse("2"), Some(Price::new(2, 0)));
    assert_eq!(Price::parse("-0.010"), Some(Price::new(-10, 3)));
    assert_eq!(Price::parse(""), None);
    assert_eq!(Price::parse("abc"), None);
}
