//! Instrument identifiers: a fixed table of tradable pairs.
use vstd::prelude::*;

verus! {

/// A tradable pair.
#[derive(Clone, Copy, Debug, PartialEq, Eq, Structural)]
pub enum Symbol {
    BTCUSDT,
    ETHUSDT,
    BNBUSDT,
    SOLUSDT,
    XRPUSDT,
    DOGEUSDT,
    ETHBTC,
    BNBBTC,
}

/// The name of a pair as it appears in inbound payloads (upper case).
pub open spec fn symbol_name(s: Symbol) -> Seq<char> {
    match s {
        Symbol::BTCUSDT => "BTCUSDT"@,
        Symbol::ETHUSDT => "ETHUSDT"@,
        Symbol::BNBUSDT => "BNBUSDT"@,
        Symbol::SOLUSDT => "SOLUSDT"@,
        Symbol::XRPUSDT => "XRPUSDT"@,
        Symbol::DOGEUSDT => "DOGEUSDT"@,
        Symbol::ETHBTC => "ETHBTC"@,
        Symbol::BNBBTC => "BNBBTC"@,
    }
}

/// The name of a pair as it appears in stream names (lower case).
pub open spec fn symbol_stream_name(s: Symbol) -> Seq<char> {
    match s {
        Symbol::BTCUSDT => "btcusdt"@,
        Symbol::ETHUSDT => "ethusdt"@,
        Symbol::BNBUSDT => "bnbusdt"@,
        Symbol::SOLUSDT => "solusdt"@,
        Symbol::XRPUSDT => "xrpusdt"@,
        Symbol::DOGEUSDT => "dogeusdt"@,
        Symbol::ETHBTC => "ethbtc"@,
        Symbol::BNBBTC => "bnbbtc"@,
    }
}

/// Every pair of the table, in the order in which names are looked up.
pub open spec fn all_symbols() -> Seq<Symbol> {
    seq![
        Symbol::BTCUSDT,
        Symbol::ETHUSDT,
        Symbol::BNBUSDT,
        Symbol::SOLUSDT,
        Symbol::XRPUSDT,
        Symbol::DOGEUSDT,
        Symbol::ETHBTC,
        Symbol::BNBBTC,
    ]
}

/// The first pair of `syms` whose payload name is `name`.
pub open spec fn first_named(syms: Seq<Symbol>, name: Seq<char>) -> Option<Symbol>
    decreases syms.len(),
{
    if syms.len() == 0 {
        None
    } else if symbol_name(syms[0]) == name {
        Some(syms[0])
    } else {
        first_named(syms.drop_first(), name)
    }
}

/// The pair whose payload name is `name`, if the table has one.
pub open spec fn symbol_of_name(name: Seq<char>) -> Option<Symbol> {
    first_named(all_symbols(), name)
}

impl Symbol {
    /// The payload name of this pair.
    pub fn name(&self) -> (r: &'static str)
        ensures
            r@ == symbol_name(*self),
    {
        match self {
            Symbol::BTCUSDT => "BTCUSDT",
            Symbol::ETHUSDT => "ETHUSDT",
            Symbol::BNBUSDT => "BNBUSDT",
            Symbol::SOLUSDT => "SOLUSDT",
            Symbol::XRPUSDT => "XRPUSDT",
            Symbol::DOGEUSDT => "DOGEUSDT",
            Symbol::ETHBTC => "ETHBTC",
            Symbol::BNBBTC => "BNBBTC",
        }
    }

    /// The stream name of this pair, as the exchange expects it before `@`.
    pub fn stream_name(&self) -> (r: &'static str)
        ensures
            r@ == symbol_stream_name(*self),
    {
        match self {
            Symbol::BTCUSDT => "btcusdt",
            Symbol::ETHUSDT => "ethusdt",
            Symbol::BNBUSDT => "bnbusdt",
            Symbol::SOLUSDT => "solusdt",
            Symbol::XRPUSDT => "xrpusdt",
            Symbol::DOGEUSDT => "dogeusdt",
            Symbol::ETHBTC => "ethbtc",
            Symbol::BNBBTC => "bnbbtc",
        }
    }

    /// The pair named `name` in payloads; unknown names are rejected.
    pub fn from_name(name: &str) -> (r: Option<Symbol>)
        ensures
            r == symbol_of_name(name@),
    {
        let table: [Symbol; 8] = [
            Symbol::BTCUSDT,
            Symbol::ETHUSDT,
            Symbol::BNBUSDT,
            Symbol::SOLUSDT,
            Symbol::XRPUSDT,
            Symbol::DOGEUSDT,
            Symbol::ETHBTC,
            Symbol::BNBBTC,
        ];
        assert(table@ == all_symbols());
        assert(all_symbols().subrange(0, 8) =~= all_symbols());
        let wanted = String::from_str(name);
        let mut i: usize = 0;
        while i < 8
            invariant
                0 <= i <= 8,
                table@ == all_symbols(),
                wanted@ == name@,
                first_named(all_symbols().subrange(i as int, 8), name@) == symbol_of_name(name@),
            decreases 8 - i,
        {
            let s = table[i];
            let candidate = String::from_str(s.name());
            assert(all_symbols().subrange(i as int, 8).drop_first() =~= all_symbols().subrange(
                i + 1,
                8,
            ));
            if candidate == wanted {
                return Some(s);
            }
            i = i + 1;
        }
        None
    }
}

} // verus!
