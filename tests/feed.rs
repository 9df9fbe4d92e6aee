use binance_stream::{Delay, DepthLevel, Feed, SubscribeInfo, Symbol, Timeframe};

fn depth(levels: DepthLevel, delay: Delay) -> Feed {
    Feed::PartialDepth { levels, delay }
}

#[test]
fn feed_token_table() {
    assert_eq!(Feed::AggTrade.to_token(), "aggTrade");
    assert_eq!(Feed::Trade.to_token(), "trade");
    assert_eq!(Feed::BookTicker.to_token(), "bookTicker");
    assert_eq!(depth(DepthLevel::FIVE, Delay::ONEHUNDRED).to_token(), "depth5@100ms");
    assert_eq!(depth(DepthLevel::FIVE, Delay::ONETHOUSAND).to_token(), "depth5");
    assert_eq!(depth(DepthLevel::TEN, Delay::ONEHUNDRED).to_token(), "depth10@100ms");
    assert_eq!(depth(DepthLevel::TEN, Delay::ONETHOUSAND).to_token(), "depth10");
    assert_eq!(depth(DepthLevel::TWENTY, Delay::ONEHUNDRED).to_token(), "depth20@100ms");
    assert_eq!(depth(DepthLevel::TWENTY, Delay::ONETHOUSAND).to_token(), "depth20");
}

#[test]
fn feed_token_round_trip() {
    let feeds = [
        Feed::AggTrade,
        Feed::Trade,
        Feed::BookTicker,
        depth(DepthLevel::FIVE, Delay::ONEHUNDRED),
        depth(DepthLevel::FIVE, Delay::ONETHOUSAND),
        depth(DepthLevel::TEN, Delay::ONEHUNDRED),
        depth(DepthLevel::TEN, Delay::ONETHOUSAND),
        depth(DepthLevel::TWENTY, Delay::ONEHUNDRED),
        depth(DepthLevel::TWENTY, Delay::ONETHOUSAND),
    ];
    for f in feeds {
        assert_eq!(Feed::from_token(&f.to_token()), Some(f));
    }
}

#[test]
fn unknown_feed_tokens_are_rejected() {
    assert_eq!(Feed::from_token("depth15"), None);
    assert_eq!(Feed::from_token("depth5@1000ms"), None);
    assert_eq!(Feed::from_token("AGGTRADE"), None);
    assert_eq!(Feed::from_token(""), None);
}

#[test]
fn depth_levels() {
    assert_eq!(DepthLevel::FIVE.levels(), 5);
    assert_eq!(DepthLevel::TEN.levels(), 10);
    assert_eq!(DepthLevel::TWENTY.levels(), 20);
}

#[test]
fn symbol_names() {
    assert_eq!(Symbol::BTCUSDT.name(), "BTCUSDT");
    assert_eq!(Symbol::DOGEUSDT.stream_name(), "dogeusdt");
    assert_eq!(Symbol::from_name("BNBUSDT"), Some(Symbol::BNBUSDT));
    assert_eq!(Symbol::from_name("bnbusdt"), None);
    assert_eq!(Symbol::from_name("XYZ"), None);
}

#[test]
fn stream_names() {
    let info = SubscribeInfo::new(Symbol::BTCUSDT, depth(DepthLevel::FIVE, Delay::ONEHUNDRED));
    assert_eq!(info.stream_name(), "btcusdt@depth5@100ms");
    let info = SubscribeInfo::new(Symbol::ETHBTC, Feed::BookTicker);
    assert_eq!(info.stream_name(), "ethbtc@bookTicker");
}

#[test]
fn timeframe_codes() {
    assert_eq!(Timeframe::ONEMINUTE.code(), "1m");
    assert_eq!(Timeframe::ONEHOUR.code(), "1h");
    assert_eq!(Timeframe::ONEDAY.code(), "1d");
}
