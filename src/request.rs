//! Subscription request descriptors and the text of subscribe and
//! unsubscribe requests.
use vstd::prelude::*;

use crate::feed::{feed_token, has_token, Feed};
use crate::symbol::{symbol_stream_name, Symbol};

verus! {

/// Information required to subscribe to a feed for a symbol.
#[derive(Clone, Copy, Debug, PartialEq, Eq, Structural)]
pub struct SubscribeInfo {
    pub symbol: Symbol,
    pub feed: Feed,
}

/// The request id used when the caller gives none, and by every unsubscribe
/// request.
pub const DEFAULT_REQUEST_ID: u32 = 1;

pub open spec fn digit_char(d: nat) -> char {
    if d == 0 { '0' }
    else if d == 1 { '1' }
    else if d == 2 { '2' }
    else if d == 3 { '3' }
    else if d == 4 { '4' }
    else if d == 5 { '5' }
    else if d == 6 { '6' }
    else if d == 7 { '7' }
    else if d == 8 { '8' }
    else { '9' }
}

/// The decimal digits of `n`, most significant first, without leading zeros.
pub open spec fn decimal_text(n: nat) -> Seq<char>
    decreases n,
{
    if n < 10 {
        seq![digit_char(n)]
    } else {
        decimal_text(n / 10) + seq![digit_char(n % 10)]
    }
}

/// `<instrument>@<channel>`, the name of one stream.
pub open spec fn stream_name(i: SubscribeInfo) -> Seq<char> {
    symbol_stream_name(i.symbol) + seq!['@'] + feed_token(i.feed)
}

pub open spec fn quoted(s: Seq<char>) -> Seq<char> {
    seq!['"'] + s + seq!['"']
}

/// The stream names of `infos`, each quoted, separated by commas.
pub open spec fn params_text(infos: Seq<SubscribeInfo>) -> Seq<char>
    decreases infos.len(),
{
    if infos.len() == 0 {
        Seq::empty()
    } else if infos.len() == 1 {
        quoted(stream_name(infos[0]))
    } else {
        params_text(infos.drop_last()) + seq![','] + quoted(stream_name(infos.last()))
    }
}

/// `{"method":"<method>","params":[<names>],"id":<id>}`
pub open spec fn request_text(method: Seq<char>, infos: Seq<SubscribeInfo>, id: nat) -> Seq<char> {
    "{\"method\":\""@ + method + "\",\"params\":["@ + params_text(infos) + "],\"id\":"@
        + decimal_text(id) + "}"@
}

pub open spec fn all_have_tokens(infos: Seq<SubscribeInfo>) -> bool {
    forall|k: int| 0 <= k < infos.len() ==> has_token(#[trigger] infos[k].feed)
}

/// The subscribe request for `infos`; none for an empty list.
pub open spec fn subscribe_text(infos: Seq<SubscribeInfo>, id: Option<u32>) -> Option<Seq<char>> {
    if infos.len() == 0 {
        None
    } else {
        let n = match id {
            Some(v) => v as nat,
            None => DEFAULT_REQUEST_ID as nat,
        };
        Some(request_text("SUBSCRIBE"@, infos, n))
    }
}

/// The unsubscribe request for `infos`; none for an empty list.
pub open spec fn unsubscribe_text(infos: Seq<SubscribeInfo>) -> Option<Seq<char>> {
    if infos.len() == 0 {
        None
    } else {
        Some(request_text("UNSUBSCRIBE"@, infos, DEFAULT_REQUEST_ID as nat))
    }
}

impl SubscribeInfo {
    pub fn new(symbol: Symbol, feed: Feed) -> (r: Self)
        ensures
            r.symbol == symbol,
            r.feed == feed,
    {
        SubscribeInfo { symbol, feed }
    }

    /// `<instrument>@<channel>`, e.g. `btcusdt@depth5@100ms`.
    pub fn stream_name(&self) -> (r: String)
        requires
            has_token(self.feed),
        ensures
            r@ == stream_name(*self),
    {
        let mut s = String::from_str(self.symbol.stream_name());
        s.append("@");
        let t = self.feed.to_token();
        s.append(t.as_str());
        proof {
            reveal_strlit("@");
        }
        assert(s@ =~= stream_name(*self));
        s
    }
}

fn digit_str(d: u32) -> (r: &'static str)
    requires
        d < 10,
    ensures
        r@ == seq![digit_char(d as nat)],
{
    proof {
        reveal_strlit("0");
        reveal_strlit("1");
        reveal_strlit("2");
        reveal_strlit("3");
        reveal_strlit("4");
        reveal_strlit("5");
        reveal_strlit("6");
        reveal_strlit("7");
        reveal_strlit("8");
        reveal_strlit("9");
    }
    let r = if d == 0 { "0" }
    else if d == 1 { "1" }
    else if d == 2 { "2" }
    else if d == 3 { "3" }
    else if d == 4 { "4" }
    else if d == 5 { "5" }
    else if d == 6 { "6" }
    else if d == 7 { "7" }
    else if d == 8 { "8" }
    else { "9" };
    assert(r@ =~= seq![digit_char(d as nat)]);
    r
}

/// Appends the decimal digits of `n` to `s`.
pub fn push_decimal(s: &mut String, n: u32)
    ensures
        final(s)@ == old(s)@ + decimal_text(n as nat),
    decreases n,
{
    if n >= 10 {
        push_decimal(s, n / 10);
    }
    s.append(digit_str(n % 10));
    assert(final(s)@ =~= old(s)@ + decimal_text(n as nat));
}

/// Builds `{"method":"<method>","params":[...],"id":<id>}` for a non-empty list.
fn request(method: &str, infos: &[SubscribeInfo], id: u32) -> (r: String)
    requires
        infos@.len() > 0,
        all_have_tokens(infos@),
    ensures
        r@ == request_text(method@, infos@, id as nat),
{
    let mut s = String::from_str("{\"method\":\"");
    s.append(method);
    s.append("\",\"params\":[");
    let ghost head = s@;
    let mut i: usize = 0;
    while i < infos.len()
        invariant
            0 <= i <= infos@.len(),
            all_have_tokens(infos@),
            s@ == head + params_text(infos@.subrange(0, i as int)),
        decreases infos@.len() - i,
    {
        let ghost before = s@;
        if i > 0 {
            s.append(",");
        }
        s.append("\"");
        let name = infos[i].stream_name();
        s.append(name.as_str());
        s.append("\"");
        proof {
            reveal_strlit(",");
            reveal_strlit("\"");
            let next = infos@.subrange(0, i + 1);
            assert(next.drop_last() =~= infos@.subrange(0, i as int));
            assert(next.last() == infos@[i as int]);
            if i == 0 {
                assert(infos@.subrange(0, 0) =~= Seq::<SubscribeInfo>::empty());
            }
            assert(s@ =~= head + params_text(next));
        }
        i = i + 1;
    }
    assert(infos@.subrange(0, infos@.len() as int) =~= infos@);
    s.append("],\"id\":");
    push_decimal(&mut s, id);
    s.append("}");
    assert(s@ =~= request_text(method@, infos@, id as nat));
    s
}

/// The text of the subscribe request for `infos`, with request id `id`
/// (1 when none is given). There is none for an empty list: nothing is to be
/// sent then.
pub fn subscribe_request(infos: &[SubscribeInfo], id: Option<u32>) -> (r: Option<String>)
    requires
        all_have_tokens(infos@),
    ensures
        r matches Some(t) ==> subscribe_text(infos@, id) == Some(t@),
        r is None <==> subscribe_text(infos@, id) is None,
{
    if infos.len() == 0 {
        return None;
    }
    let n = match id {
        Some(v) => v,
        None => DEFAULT_REQUEST_ID,
    };
    Some(request("SUBSCRIBE", infos, n))
}

/// The text of the unsubscribe request for `infos`, with request id 1.
/// There is none for an empty list.
pub fn unsubscribe_request(infos: &[SubscribeInfo]) -> (r: Option<String>)
    requires
        all_have_tokens(infos@),
    ensures
        r matches Some(t) ==> unsubscribe_text(infos@) == Some(t@),
        r is None <==> unsubscribe_text(infos@) is None,
{
    if infos.len() == 0 {
        return None;
    }
    Some(request("UNSUBSCRIBE", infos, DEFAULT_REQUEST_ID))
}

} // verus!
