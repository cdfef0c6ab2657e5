//! Core data model: exchange identity, trade sides, decimal quantities and
//! the instrument (traded pair) that every canonical event is stamped with.
use vstd::prelude::*;

verus! {

/// Stable identifier of a supported exchange venue.
#[derive(Copy, Clone, PartialEq, Eq, Structural, Debug)]
pub enum ExchangeId {
    Coinbase,
    Bitmex,
    Bybit,
}

/// Side of a trade, from the perspective of the aggressing order.
#[derive(Copy, Clone, PartialEq, Eq, Structural, Debug)]
pub enum Side {
    Buy,
    Sell,
}

/// Exact decimal quantity: `mantissa * 10^-(scale)`. Prices and amounts are
/// carried through normalization unchanged, so no arithmetic is defined.
#[derive(Copy, Clone, PartialEq, Eq, Structural, Debug)]
pub struct Decimal {
    pub mantissa: i64,
    pub scale: u32,
}

/// A traded pair in canonical (exchange-agnostic) form.
#[derive(PartialEq, Eq, Debug)]
pub struct Instrument {
    pub base: String,
    pub quote: String,
}

impl Instrument {
    /// Abstract value of an instrument: its two symbol strings.
    pub open spec fn chars(&self) -> (Seq<char>, Seq<char>) {
        (self.base@, self.quote@)
    }

    pub fn new(base: &str, quote: &str) -> (r: Instrument)
        ensures
            r.base@ == base@,
            r.quote@ == quote@,
    {
        Instrument { base: base.to_owned(), quote: quote.to_owned() }
    }

    pub fn clone_instrument(&self) -> (r: Instrument)
        ensures
            r.chars() == self.chars(),
    {
        Instrument { base: self.base.clone(), quote: self.quote.clone() }
    }
}

} // verus!
