//! Channel identifiers (feeds) and their lowercase wire tokens.
use vstd::prelude::*;

verus! {

/// How many price levels a partial-depth snapshot carries on each side.
#[derive(Clone, Copy, Debug, PartialEq, Eq, Structural)]
pub enum DepthLevel {
    FIVE,
    TEN,
    TWENTY,
}

/// Time between two partial-depth snapshots.
#[derive(Clone, Copy, Debug, PartialEq, Eq, Structural)]
pub enum Delay {
    /// 100 milliseconds
    ONEHUNDRED,
    /// 1000 milliseconds
    ONETHOUSAND,
}

/// The available feeds for streaming data.
#[derive(Clone, Copy, Debug, PartialEq, Eq, Structural)]
pub enum Feed {
    /// Aggregated trade information for a single taker order.
    AggTrade,
    /// Raw trade information.
    Trade,
    /// Best bid and offer, updated in real time.
    BookTicker,
    /// Top bids and asks, every 100 ms or every 1000 ms.
    PartialDepth { levels: DepthLevel, delay: Delay },
    /// Incremental order-book updates; it has no wire token.
    FullDepth,
}

/// The number of levels, as written in the wire token.
pub open spec fn level_count(l: DepthLevel) -> nat {
    match l {
        DepthLevel::FIVE => 5,
        DepthLevel::TEN => 10,
        DepthLevel::TWENTY => 20,
    }
}

pub open spec fn level_token(l: DepthLevel) -> Seq<char> {
    match l {
        DepthLevel::FIVE => "5"@,
        DepthLevel::TEN => "10"@,
        DepthLevel::TWENTY => "20"@,
    }
}

/// The 100 ms delay is written out; the 1000 ms delay has no suffix.
pub open spec fn delay_suffix(d: Delay) -> Seq<char> {
    match d {
        Delay::ONEHUNDRED => "@100ms"@,
        Delay::ONETHOUSAND => ""@,
    }
}

/// Every feed but `FullDepth` has a wire token.
pub open spec fn has_token(f: Feed) -> bool {
    !(f is FullDepth)
}

/// The wire token of a feed that has one.
pub open spec fn feed_token(f: Feed) -> Seq<char> {
    match f {
        Feed::AggTrade => "aggTrade"@,
        Feed::Trade => "trade"@,
        Feed::BookTicker => "bookTicker"@,
        Feed::PartialDepth { levels, delay } => "depth"@ + level_token(levels) + delay_suffix(delay),
        Feed::FullDepth => Seq::empty(),
    }
}

/// The feed whose wire token is `s`, if any feed has it.
pub open spec fn feed_of_token(s: Seq<char>) -> Option<Feed> {
    if exists|f: Feed| has_token(f) && feed_token(f) == s {
        Some(choose|f: Feed| has_token(f) && feed_token(f) == s)
    } else {
        None
    }
}

/// The feeds that have a wire token, in the order `Feed::from_token` tries them.
pub open spec fn token_feeds() -> Seq<Feed> {
    seq![
        Feed::AggTrade,
        Feed::Trade,
        Feed::BookTicker,
        Feed::PartialDepth { levels: DepthLevel::FIVE, delay: Delay::ONEHUNDRED },
        Feed::PartialDepth { levels: DepthLevel::FIVE, delay: Delay::ONETHOUSAND },
        Feed::PartialDepth { levels: DepthLevel::TEN, delay: Delay::ONEHUNDRED },
        Feed::PartialDepth { levels: DepthLevel::TEN, delay: Delay::ONETHOUSAND },
        Feed::PartialDepth { levels: DepthLevel::TWENTY, delay: Delay::ONEHUNDRED },
        Feed::PartialDepth { levels: DepthLevel::TWENTY, delay: Delay::ONETHOUSAND },
    ]
}

proof fn lemma_token_feeds_complete(f: Feed)
    requires
        has_token(f),
    ensures
        token_feeds().contains(f),
{
    let t = token_feeds();
    match f {
        Feed::AggTrade => assert(t[0] == f),
        Feed::Trade => assert(t[1] == f),
        Feed::BookTicker => assert(t[2] == f),
        Feed::PartialDepth { levels, delay } => {
            match (levels, delay) {
                (DepthLevel::FIVE, Delay::ONEHUNDRED) => assert(t[3] == f),
                (DepthLevel::FIVE, Delay::ONETHOUSAND) => assert(t[4] == f),
                (DepthLevel::TEN, Delay::ONEHUNDRED) => assert(t[5] == f),
                (DepthLevel::TEN, Delay::ONETHOUSAND) => assert(t[6] == f),
                (DepthLevel::TWENTY, Delay::ONEHUNDRED) => assert(t[7] == f),
                (DepthLevel::TWENTY, Delay::ONETHOUSAND) => assert(t[8] == f),
            }
        },
        Feed::FullDepth => {},
    }
}

proof fn lemma_reveal_tokens()
    ensures
        "aggTrade"@ =~= seq!['a', 'g', 'g', 'T', 'r', 'a', 'd', 'e'],
        "trade"@ =~= seq!['t', 'r', 'a', 'd', 'e'],
        "bookTicker"@ =~= seq!['b', 'o', 'o', 'k', 'T', 'i', 'c', 'k', 'e', 'r'],
        "depth"@ =~= seq!['d', 'e', 'p', 't', 'h'],
        "5"@ =~= seq!['5'],
        "10"@ =~= seq!['1', '0'],
        "20"@ =~= seq!['2', '0'],
        "@100ms"@ =~= seq!['@', '1', '0', '0', 'm', 's'],
        ""@ =~= Seq::<char>::empty(),
{
    reveal_strlit("aggTrade");
    reveal_strlit("trade");
    reveal_strlit("bookTicker");
    reveal_strlit("depth");
    reveal_strlit("5");
    reveal_strlit("10");
    reveal_strlit("20");
    reveal_strlit("@100ms");
    reveal_strlit("");
}

/// Two feeds that have wire tokens have the same token only if they are the
/// same feed.
pub proof fn lemma_token_injective(f: Feed, g: Feed)
    requires
        has_token(f),
        has_token(g),
        feed_token(f) == feed_token(g),
    ensures
        f == g,
{
    lemma_reveal_tokens();
    let (a, b) = (feed_token(f), feed_token(g));
    if f != g {
        match (f, g) {
            (Feed::PartialDepth { levels: lf, delay: df }, Feed::PartialDepth { levels: lg, delay: dg }) => {
                if lf != lg {
                    assert(a[5] != b[5] || a[6] != b[6] || a.len() != b.len());
                } else {
                    assert(a.len() != b.len());
                }
            },
            (Feed::PartialDepth { .. }, _) => assert(a[0] != b[0]),
            (_, Feed::PartialDepth { .. }) => assert(a[0] != b[0]),
            _ => assert(a[0] != b[0]),
        }
    }
}

/// Formatting a feed that has a wire token and reading the token back gives
/// the same feed.
pub proof fn lemma_feed_token_round_trip(f: Feed)
    requires
        has_token(f),
    ensures
        feed_of_token(feed_token(f)) == Some(f),
{
    let g = choose|g: Feed| has_token(g) && feed_token(g) == feed_token(f);
    lemma_token_injective(f, g);
}

impl DepthLevel {
    pub fn levels(&self) -> (r: u8)
        ensures
            r as nat == level_count(*self),
    {
        match self {
            DepthLevel::FIVE => 5,
            DepthLevel::TEN => 10,
            DepthLevel::TWENTY => 20,
        }
    }

    pub fn token(&self) -> (r: &'static str)
        ensures
            r@ == level_token(*self),
    {
        match self {
            DepthLevel::FIVE => "5",
            DepthLevel::TEN => "10",
            DepthLevel::TWENTY => "20",
        }
    }
}

impl Delay {
    pub fn suffix(&self) -> (r: &'static str)
        ensures
            r@ == delay_suffix(*self),
    {
        match self {
            Delay::ONEHUNDRED => "@100ms",
            Delay::ONETHOUSAND => "",
        }
    }
}

impl Feed {
    /// The lowercase wire token of this feed, as it appears after `@` in a
    /// stream name.
    pub fn to_token(&self) -> (r: String)
        requires
            has_token(*self),
        ensures
            r@ == feed_token(*self),
    {
        match self {
            Feed::AggTrade => String::from_str("aggTrade"),
            Feed::Trade => String::from_str("trade"),
            Feed::BookTicker => String::from_str("bookTicker"),
            Feed::PartialDepth { levels, delay } => {
                let mut s = String::from_str("depth");
                s.append(levels.token());
                s.append(delay.suffix());
                s
            },
            Feed::FullDepth => String::new(),
        }
    }

    /// The feed whose wire token is `s`, if there is one.
    pub fn from_token(s: &str) -> (r: Option<Feed>)
        ensures
            r == feed_of_token(s@),
    {
        let candidates: [Feed; 9] = [
            Feed::AggTrade,
            Feed::Trade,
            Feed::BookTicker,
            Feed::PartialDepth { levels: DepthLevel::FIVE, delay: Delay::ONEHUNDRED },
            Feed::PartialDepth { levels: DepthLevel::FIVE, delay: Delay::ONETHOUSAND },
            Feed::PartialDepth { levels: DepthLevel::TEN, delay: Delay::ONEHUNDRED },
            Feed::PartialDepth { levels: DepthLevel::TEN, delay: Delay::ONETHOUSAND },
            Feed::PartialDepth { levels: DepthLevel::TWENTY, delay: Delay::ONEHUNDRED },
            Feed::PartialDepth { levels: DepthLevel::TWENTY, delay: Delay::ONETHOUSAND },
        ];
        assert(candidates@ == token_feeds());
        let wanted = String::from_str(s);
        let mut i: usize = 0;
        while i < 9
            invariant
                0 <= i <= 9,
                candidates@ == token_feeds(),
                wanted@ == s@,
                forall|j: int| 0 <= j < i ==> feed_token(#[trigger] token_feeds()[j]) != s@,
            decreases 9 - i,
        {
            let f = candidates[i];
            let t = f.to_token();
            if t == wanted {
                proof {
                    let g = choose|g: Feed| has_token(g) && feed_token(g) == s@;
                    lemma_token_injective(f, g);
                }
                return Some(f);
            }
            i = i + 1;
        }
        proof {
            assert forall|f: Feed| has_token(f) implies feed_token(f) != s@ by {
                lemma_token_feeds_complete(f);
                let j = token_feeds().index_of(f);
                assert(token_feeds()[j] == f);
            }
        }
        None
    }
}

} // verus!
