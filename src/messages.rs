//! Inbound messages and the decoder that turns a parsed payload into one.
use vstd::prelude::*;

use crate::json::{
    as_bool, as_text, as_u64, bool_of, deref_opt, field, get_field, text_of, u64_of, Json,
};
use crate::symbol::{symbol_of_name, Symbol};

verus! {

/// An exact decimal number: `mantissa * 10^-scale`. Trailing zeros of the
/// text it was read from are kept in the scale.
#[derive(Clone, Copy, Debug, PartialEq, Eq, Structural)]
pub struct Price {
    pub mantissa: i128,
    pub scale: u32,
}

/// What `rust_decimal` reads from a decimal text: its mantissa and scale, or
/// nothing where the text is not a decimal number.
pub uninterp spec fn decimal_parts(s: Seq<char>) -> Option<(i128, u32)>;

/// Relies on `rust_decimal::Decimal::from_str` (with `Decimal::mantissa` and
/// `Decimal::scale` to read the result): the result depends on the text
/// alone, and an empty text is an error.
#[verifier::external_body]
fn parse_decimal(s: &str) -> (r: Option<(i128, u32)>)
    ensures
        r == decimal_parts(s@),
        s@.len() == 0 ==> r is None,
{
    match <rust_decimal::Decimal as core::str::FromStr>::from_str(s) {
        Ok(d) => Some((d.mantissa(), d.scale())),
        Err(_) => None,
    }
}

impl Price {
    pub fn new(mantissa: i128, scale: u32) -> (r: Price)
        ensures
            r.mantissa == mantissa,
            r.scale == scale,
    {
        Price { mantissa, scale }
    }

    /// Reads a decimal text such as `"9643.5"`.
    pub fn parse(s: &str) -> (r: Option<Price>)
        ensures
            r == price_of(s@),
    {
        match parse_decimal(s) {
            Some((m, sc)) => Some(Price { mantissa: m, scale: sc }),
            None => None,
        }
    }
}

/// Aggregated trade information for a single taker order.
#[derive(Clone, Copy, Debug, PartialEq, Eq, Structural)]
pub struct AggTrade {
    pub event_time: u64,
    pub trade_id: u64,
    pub symbol: Symbol,
    pub price: Price,
    pub quantity: Price,
    pub first_trade_id: u32,
    pub last_trade_id: u32,
    pub trade_time: u64,
    pub is_market_maker: bool,
}

/// The top levels of the order book. Each level is `[price, quantity]`.
#[derive(Clone, Debug, PartialEq, Eq)]
pub struct PartialDepth {
    pub last_update_id: u64,
    pub bids: Vec<[Price; 2]>,
    pub asks: Vec<[Price; 2]>,
}

/// Best bid and best offer.
#[derive(Clone, Copy, Debug, PartialEq, Eq, Structural)]
pub struct BookTicker {
    pub update_id: u64,
    pub symbol: Symbol,
    pub best_bid_price: Price,
    pub best_bid_qty: Price,
    pub best_ask_price: Price,
    pub best_ask_qty: Price,
}

/// Messages returned by the stream.
#[derive(Clone, Debug, PartialEq, Eq)]
pub enum Message {
    AggTrade(AggTrade),
    PartialDepth(PartialDepth),
    BookTicker(BookTicker),
    SubscribeSuccess { result: Option<String>, id: u8 },
}

pub open spec fn price_of(s: Seq<char>) -> Option<Price> {
    match decimal_parts(s) {
        Some((m, sc)) => Some(Price { mantissa: m, scale: sc }),
        None => None,
    }
}

/// A member that may be written under either of two names, but not both.
pub open spec fn either_field(j: Json, short: Seq<char>, long: Seq<char>) -> Option<Json> {
    match (field(j, short), field(j, long)) {
        (Some(v), None) => Some(v),
        (None, Some(v)) => Some(v),
        _ => None,
    }
}

pub open spec fn as_u32(v: Option<Json>) -> Option<u32> {
    match as_u64(v) {
        Some(n) => if n <= u32::MAX { Some(n as u32) } else { None },
        None => None,
    }
}

pub open spec fn as_price(v: Option<Json>) -> Option<Price> {
    match as_text(v) {
        Some(s) => price_of(s),
        None => None,
    }
}

pub open spec fn as_symbol(v: Option<Json>) -> Option<Symbol> {
    match as_text(v) {
        Some(s) => symbol_of_name(s),
        None => None,
    }
}

/// A subscription acknowledgement: `id` up to 255, and `result` missing,
/// null or a string.
pub open spec fn ack_of(j: Json) -> Option<(Option<Seq<char>>, u8)> {
    let result = match field(j, "result"@) {
        None => Some(None),
        Some(Json::Null) => Some(None),
        Some(Json::Str(s)) => Some(Some(s@)),
        _ => None,
    };
    match (as_u64(field(j, "id"@)), result) {
        (Some(n), Some(r)) => if n <= 255 { Some((r, n as u8)) } else { None },
        _ => None,
    }
}

/// A best bid and offer: `u`, `s`, `b`, `B`, `a`, `A`.
pub open spec fn ticker_of(j: Json) -> Option<BookTicker> {
    match (
        as_u64(field(j, "u"@)),
        as_symbol(field(j, "s"@)),
        as_price(field(j, "b"@)),
        as_price(field(j, "B"@)),
        as_price(field(j, "a"@)),
        as_price(field(j, "A"@)),
    ) {
        (Some(u), Some(s), Some(b), Some(bq), Some(a), Some(aq)) => Some(
            BookTicker {
                update_id: u,
                symbol: s,
                best_bid_price: b,
                best_bid_qty: bq,
                best_ask_price: a,
                best_ask_qty: aq,
            },
        ),
        _ => None,
    }
}

/// One book level: an array of exactly two decimal texts.
pub open spec fn level_of(v: Json) -> Option<(Price, Price)> {
    match v {
        Json::Array(items) => if items@.len() == 2 {
            match (items@[0], items@[1]) {
                (Json::Str(p), Json::Str(q)) => match (price_of(p@), price_of(q@)) {
                    (Some(pp), Some(qq)) => Some((pp, qq)),
                    _ => None,
                },
                _ => None,
            }
        } else {
            None
        },
        _ => None,
    }
}

/// Book levels, in the order of the array; none if any level is malformed.
pub open spec fn levels_of(items: Seq<Json>) -> Option<Seq<(Price, Price)>>
    decreases items.len(),
{
    if items.len() == 0 {
        Some(Seq::empty())
    } else {
        match (levels_of(items.drop_last()), level_of(items.last())) {
            (Some(rows), Some(l)) => Some(rows.push(l)),
            _ => None,
        }
    }
}

pub open spec fn levels_field(j: Json, key: Seq<char>) -> Option<Seq<(Price, Price)>> {
    match field(j, key) {
        Some(Json::Array(items)) => levels_of(items@),
        _ => None,
    }
}

/// An order-book snapshot: `lastUpdateId`, `bids`, `asks`.
pub open spec fn depth_of(j: Json) -> Option<(u64, Seq<(Price, Price)>, Seq<(Price, Price)>)> {
    match (
        as_u64(field(j, "lastUpdateId"@)),
        levels_field(j, "bids"@),
        levels_field(j, "asks"@),
    ) {
        (Some(id), Some(bids), Some(asks)) => Some((id, bids, asks)),
        _ => None,
    }
}

/// An aggregate trade: each member under its short or its long name.
pub open spec fn trade_of(j: Json) -> Option<AggTrade> {
    match (
        as_u64(either_field(j, "E"@, "event_time"@)),
        as_u64(either_field(j, "a"@, "trade_id"@)),
        as_symbol(either_field(j, "s"@, "symbol"@)),
        as_price(either_field(j, "p"@, "price"@)),
        as_price(either_field(j, "q"@, "quantity"@)),
        as_u32(either_field(j, "f"@, "first_trade_id"@)),
        as_u32(either_field(j, "l"@, "last_trade_id"@)),
        as_u64(either_field(j, "T"@, "trade_time"@)),
        as_bool(either_field(j, "m"@, "is_market_maker"@)),
    ) {
        (Some(e), Some(a), Some(s), Some(p), Some(q), Some(f), Some(l), Some(t), Some(m)) => Some(
            AggTrade {
                event_time: e,
                trade_id: a,
                symbol: s,
                price: p,
                quantity: q,
                first_trade_id: f,
                last_trade_id: l,
                trade_time: t,
                is_market_maker: m,
            },
        ),
        _ => None,
    }
}

/// The levels of a book side hold the rows, in order.
pub open spec fn rows_match(v: Seq<[Price; 2]>, rows: Seq<(Price, Price)>) -> bool {
    &&& v.len() == rows.len()
    &&& forall|k: int| 0 <= k < v.len() ==> (#[trigger] v[k])@ == seq![rows[k].0, rows[k].1]
}

pub open spec fn opt_text(o: Option<String>) -> Option<Seq<char>> {
    match o {
        Some(s) => Some(s@),
        None => None,
    }
}

/// Some shape matches the payload.
pub open spec fn decodable(j: Json) -> bool {
    ack_of(j) is Some || ticker_of(j) is Some || depth_of(j) is Some || trade_of(j) is Some
}

/// `m` is what the first matching shape gives, tried in the order
/// acknowledgement, best bid and offer, book snapshot, aggregate trade.
pub open spec fn decoded_as(j: Json, m: Message) -> bool {
    if let Some((res, id)) = ack_of(j) {
        m matches Message::SubscribeSuccess { result, id: i } && i == id && opt_text(result) == res
    } else if let Some(t) = ticker_of(j) {
        m == Message::BookTicker(t)
    } else if let Some((id, bids, asks)) = depth_of(j) {
        m matches Message::PartialDepth(d) && d.last_update_id == id && rows_match(d.bids@, bids)
            && rows_match(d.asks@, asks)
    } else if let Some(t) = trade_of(j) {
        m == Message::AggTrade(t)
    } else {
        false
    }
}

/// The value as a decimal.
fn price_value(v: Option<&Json>) -> (r: Option<Price>)
    ensures
        r == as_price(deref_opt(v)),
{
    match text_of(v) {
        Some(s) => Price::parse(s.as_str()),
        None => None,
    }
}

/// The value as a known symbol.
fn symbol_value(v: Option<&Json>) -> (r: Option<Symbol>)
    ensures
        r == as_symbol(deref_opt(v)),
{
    match text_of(v) {
        Some(s) => Symbol::from_name(s.as_str()),
        None => None,
    }
}

/// The value as an integer that fits in 32 bits.
fn u32_value(v: Option<&Json>) -> (r: Option<u32>)
    ensures
        r == as_u32(deref_opt(v)),
{
    match u64_of(v) {
        Some(n) => if n <= u32::MAX as u64 {
            Some(n as u32)
        } else {
            None
        },
        None => None,
    }
}

/// The member written under `short` or under `long`, but not both.
fn either<'a>(j: &'a Json, short: &str, long: &str) -> (r: Option<&'a Json>)
    ensures
        deref_opt(r) == either_field(*j, short@, long@),
{
    match (get_field(j, short), get_field(j, long)) {
        (Some(v), None) => Some(v),
        (None, Some(v)) => Some(v),
        _ => None,
    }
}

fn decode_ack(j: &Json) -> (r: Option<(Option<String>, u8)>)
    ensures
        r is Some <==> ack_of(*j) is Some,
        r matches Some((res, id)) ==> ack_of(*j) == Some((opt_text(res), id)),
{
    let result: Option<Option<String>> = match get_field(j, "result") {
        None => Some(None),
        Some(Json::Null) => Some(None),
        Some(Json::Str(s)) => Some(Some(s.clone())),
        _ => None,
    };
    match (u64_of(get_field(j, "id")), result) {
        (Some(n), Some(res)) => if n <= 255 {
            Some((res, n as u8))
        } else {
            None
        },
        _ => None,
    }
}

fn decode_ticker(j: &Json) -> (r: Option<BookTicker>)
    ensures
        r == ticker_of(*j),
{
    let u = u64_of(get_field(j, "u"));
    let s = symbol_value(get_field(j, "s"));
    let b = price_value(get_field(j, "b"));
    let bq = price_value(get_field(j, "B"));
    let a = price_value(get_field(j, "a"));
    let aq = price_value(get_field(j, "A"));
    match (u, s, b, bq, a, aq) {
        (Some(u), Some(s), Some(b), Some(bq), Some(a), Some(aq)) => Some(
            BookTicker {
                update_id: u,
                symbol: s,
                best_bid_price: b,
                best_bid_qty: bq,
                best_ask_price: a,
                best_ask_qty: aq,
            },
        ),
        _ => None,
    }
}

fn decode_trade(j: &Json) -> (r: Option<AggTrade>)
    ensures
        r == trade_of(*j),
{
    let e = u64_of(either(j, "E", "event_time"));
    let a = u64_of(either(j, "a", "trade_id"));
    let s = symbol_value(either(j, "s", "symbol"));
    let p = price_value(either(j, "p", "price"));
    let q = price_value(either(j, "q", "quantity"));
    let f = u32_value(either(j, "f", "first_trade_id"));
    let l = u32_value(either(j, "l", "last_trade_id"));
    let t = u64_of(either(j, "T", "trade_time"));
    let m = bool_of(either(j, "m", "is_market_maker"));
    match (e, a, s, p, q, f, l, t, m) {
        (Some(e), Some(a), Some(s), Some(p), Some(q), Some(f), Some(l), Some(t), Some(m)) => Some(
            AggTrade {
                event_time: e,
                trade_id: a,
                symbol: s,
                price: p,
                quantity: q,
                first_trade_id: f,
                last_trade_id: l,
                trade_time: t,
                is_market_maker: m,
            },
        ),
        _ => None,
    }
}

fn decode_level(v: &Json) -> (r: Option<[Price; 2]>)
    ensures
        r is Some <==> level_of(*v) is Some,
        r matches Some(a) ==> a@ == seq![level_of(*v).unwrap().0, level_of(*v).unwrap().1],
{
    match v {
        Json::Array(items) => {
            if items.len() != 2 {
                return None;
            }
            match (&items[0], &items[1]) {
                (Json::Str(p), Json::Str(q)) => match (Price::parse(p.as_str()), Price::parse(q.as_str())) {
                    (Some(pp), Some(qq)) => {
                        let a = [pp, qq];
                        assert(a@ =~= seq![pp, qq]);
                        Some(a)
                    },
                    _ => None,
                },
                _ => None,
            }
        },
        _ => None,
    }
}

proof fn lemma_levels_prefix_fails(items: Seq<Json>, i: int)
    requires
        0 <= i <= items.len(),
        levels_of(items.subrange(0, i)) is None,
    ensures
        levels_of(items) is None,
    decreases items.len(),
{
    if i == items.len() {
        assert(items.subrange(0, i) =~= items);
    } else {
        assert(items.drop_last().subrange(0, i) =~= items.subrange(0, i));
        lemma_levels_prefix_fails(items.drop_last(), i);
    }
}

/// The book side under `key`, level by level.
fn decode_levels(j: &Json, key: &str) -> (r: Option<Vec<[Price; 2]>>)
    ensures
        r is Some <==> levels_field(*j, key@) is Some,
        r matches Some(v) ==> rows_match(v@, levels_field(*j, key@).unwrap()),
{
    match get_field(j, key) {
        Some(Json::Array(items)) => {
            let mut out: Vec<[Price; 2]> = Vec::new();
            let mut i: usize = 0;
            assert(items@.subrange(0, 0) =~= Seq::<Json>::empty());
            while i < items.len()
                invariant
                    0 <= i <= items@.len(),
                    levels_field(*j, key@) == levels_of(items@),
                    levels_of(items@.subrange(0, i as int)) is Some,
                    rows_match(out@, levels_of(items@.subrange(0, i as int)).unwrap()),
                decreases items@.len() - i,
            {
                let ghost next = items@.subrange(0, i + 1);
                assert(next.drop_last() =~= items@.subrange(0, i as int));
                assert(next.last() == items@[i as int]);
                match decode_level(&items[i]) {
                    Some(level) => {
                        out.push(level);
                    },
                    None => {
                        proof {
                            lemma_levels_prefix_fails(items@, i + 1);
                        }
                        return None;
                    },
                }
                i = i + 1;
            }
            assert(items@.subrange(0, items@.len() as int) =~= items@);
            Some(out)
        },
        _ => None,
    }
}

fn decode_depth(j: &Json) -> (r: Option<PartialDepth>)
    ensures
        r is Some <==> depth_of(*j) is Some,
        r matches Some(d) ==> ({
            let (id, bids, asks) = depth_of(*j).unwrap();
            d.last_update_id == id && rows_match(d.bids@, bids) && rows_match(d.asks@, asks)
        }),
{
    let id = u64_of(get_field(j, "lastUpdateId"));
    let bids = decode_levels(j, "bids");
    let asks = decode_levels(j, "asks");
    match (id, bids, asks) {
        (Some(id), Some(bids), Some(asks)) => Some(
            PartialDepth { last_update_id: id, bids, asks },
        ),
        _ => None,
    }
}

impl Message {
    /// Decodes a parsed payload into the first shape that matches it, trying
    /// in turn a subscription acknowledgement, a best bid and offer, an
    /// order-book snapshot and an aggregate trade. None matches: none.
    pub fn decode(j: &Json) -> (r: Option<Message>)
        ensures
            r is Some <==> decodable(*j),
            r matches Some(m) ==> decoded_as(*j, m),
    {
        if let Some((result, id)) = decode_ack(j) {
            return Some(Message::SubscribeSuccess { result, id });
        }
        if let Some(t) = decode_ticker(j) {
            return Some(Message::BookTicker(t));
        }
        if let Some(d) = decode_depth(j) {
            return Some(Message::PartialDepth(d));
        }
        if let Some(t) = decode_trade(j) {
            return Some(Message::AggTrade(t));
        }
        None
    }
}

} // verus!
