//! Client-side vocabulary: the markets the feed carries, the trading
//! strategies a client can run, the decisions they log, and the connection
//! wrapper that a subscriber reads records from.
//!
//! The strategy arithmetic itself compares prices, which are floating
//! point, and the network reads are I/O; both stay outside this library.
//! What stands here is everything the client decides over plain values:
//! naming, request paths, and strategy selection.

use vstd::prelude::*;
use vstd::string::StringExecFns;
use crate::logger::Context;
use crate::text::{all_digits, dec_value, parse_u16, trim_spaces, trim_spec};

verus! {

/// The decision a strategy reaches for one new record.
#[derive(Copy, Clone, PartialEq, Eq, Structural, Debug)]
pub enum DecisionLogs {
    Buy,
    Sell,
    Wait,
}

impl Context for DecisionLogs {
    open spec fn context_spec(&self) -> Seq<char> {
        match self {
            DecisionLogs::Buy => "Buy"@,
            DecisionLogs::Sell => "Sell"@,
            DecisionLogs::Wait => "Wait"@,
        }
    }

    fn context_string(&self) -> (r: String) {
        match self {
            DecisionLogs::Buy => String::from_str("Buy"),
            DecisionLogs::Sell => String::from_str("Sell"),
            DecisionLogs::Wait => String::from_str("Wait"),
        }
    }
}

/// The closed set of strategies a client can be started with.
#[derive(Copy, Clone, PartialEq, Eq, Structural, Debug)]
pub enum TradingStrategy {
    Dummy,
}

impl TradingStrategy {
    /// Select a strategy by its configured name. Exactly the name
    /// `"dummy"` is known; any other name is refused. (The surrounding
    /// program treats an unknown name as a startup error.)
    pub fn from_name(s: &str) -> (r: Option<TradingStrategy>)
        ensures
            r == if s@ == "dummy"@ {
                Some(TradingStrategy::Dummy)
            } else {
                Option::<TradingStrategy>::None
            },
    {
        if crate::text::str_eq(s, "dummy") {
            Some(TradingStrategy::Dummy)
        } else {
            None
        }
    }
}

/// The decision of the simplest strategy, over plain sign information:
/// `Buy` when the price difference has risen past the threshold, `Sell`
/// when it has fallen past it, `Wait` in between. The difference itself
/// is computed over floating-point prices outside this library; here
/// `above` says the difference exceeds the threshold and `below` says it
/// falls under its negation, which can never hold together.
pub fn dummy_decision(above: bool, below: bool) -> (r: DecisionLogs)
    requires
        !(above && below),
    ensures
        above ==> r == DecisionLogs::Buy,
        below ==> r == DecisionLogs::Sell,
        !above && !below ==> r == DecisionLogs::Wait,
{
    if above {
        DecisionLogs::Buy
    } else if below {
        DecisionLogs::Sell
    } else {
        DecisionLogs::Wait
    }
}

/// A tradable pair the feed knows.
#[derive(Copy, Clone, PartialEq, Eq, Structural, Debug)]
pub enum TradingPair {
    BTCUSD,
}

impl TradingPair {
    /// The pair's name as it appears in request paths.
    pub open spec fn spec_name(&self) -> Seq<char> {
        match self {
            TradingPair::BTCUSD => "BTCUSD"@,
        }
    }

    pub fn name(&self) -> (r: &'static str)
        ensures
            r@ == self.spec_name(),
    {
        match self {
            TradingPair::BTCUSD => "BTCUSD",
        }
    }

    /// The path a snapshot query for this pair uses.
    pub fn query_path(&self) -> (r: String)
        ensures
            r@ == "/"@ + self.spec_name(),
    {
        let mut s = String::from_str("/");
        s.append(self.name());
        proof {
            assert(s@ =~= "/"@ + self.spec_name());
        }
        s
    }

    /// The path a subscription request for this pair uses.
    pub fn subscribe_path(&self) -> (r: String)
        ensures
            r@ == "/subscribe/"@ + self.spec_name(),
    {
        let mut s = String::from_str("/subscribe/");
        s.append(self.name());
        proof {
            assert(s@ =~= "/subscribe/"@ + self.spec_name());
        }
        s
    }
}

/// The action a windowed decision reaches over a full window of records.
/// The comparison that picks one works on floating-point prices and so
/// runs outside this library.
#[derive(Copy, Clone, PartialEq, Eq, Structural, Debug)]
pub enum Action {
    Sell,
    Buy,
    Hold,
}

/// A market name as the plain client spells it.
#[derive(Copy, Clone, PartialEq, Eq, Structural, Debug)]
pub enum Market {
    BTCUSD,
}

impl Market {
    pub fn to_string(&self) -> (r: String)
        ensures
            r@ == "BTCUSD"@,
    {
        match self {
            Market::BTCUSD => String::from_str("BTCUSD"),
        }
    }
}

/// Read the body of a subscription reply as the push port: the decimal
/// number it holds, once surrounding whitespace is stripped. Refused
/// exactly when what remains is empty, not all digits, or too large for
/// a port.
pub fn parse_port(s: &str) -> (r: Option<u16>)
    ensures
        match r {
            Some(v) => trim_spec(s@).len() > 0 && all_digits(trim_spec(s@)) && dec_value(
                trim_spec(s@),
            ) == v,
            None => trim_spec(s@).len() == 0 || !all_digits(trim_spec(s@)) || dec_value(
                trim_spec(s@),
            ) > u16::MAX,
        },
{
    parse_u16(trim_spaces(s))
}

/// A record stream: a reader plus the line buffer the next record is
/// read into. The reading itself is I/O and happens outside this library.
pub struct Connection<T> {
    pub reader: T,
    pub buffer: String,
}

impl<T> Connection<T> {
    pub fn new(reader: T) -> (r: Self)
        ensures
            r.reader == reader,
            r.buffer@ == Seq::<char>::empty(),
    {
        Self { reader, buffer: String::new() }
    }
}

} // verus!
