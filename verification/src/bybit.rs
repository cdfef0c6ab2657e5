//! Bybit adapter tokens: the market symbol in the exchange's own casing.
use vstd::prelude::*;
use vstd::string::StringExecFns;
use crate::exchange::Textual;
use crate::subscription::{Identifier, Subscription};

verus! {

/// Bybit exchange.
#[derive(Copy, Clone, PartialEq, Eq, Structural, Debug)]
pub struct Bybit;

/// Bybit market token. Bybit reports markets upper-cased (`BTCUSDT`), so
/// identities derived for it are upper-cased too.
#[derive(PartialEq, Eq, Hash, Debug)]
pub struct BybitMarket(pub String);

impl View for BybitMarket {
    type V = Seq<char>;

    open spec fn view(&self) -> Seq<char> {
        self.0@
    }
}

impl BybitMarket {
    pub fn as_ref(&self) -> (r: &str)
        ensures
            r@ == self@,
    {
        self.0.as_str()
    }
}

impl Textual for BybitMarket {
    fn as_ref(&self) -> (r: &str) {
        self.0.as_str()
    }
}

/// What `str::to_uppercase` yields for a given text; the result depends on
/// the characters alone.
pub uninterp spec fn upper_of(s: Seq<char>) -> Seq<char>;

/// Relies on `str::to_uppercase`: Unicode upper-casing of the whole text.
#[verifier::external_body]
fn to_uppercase(s: &str) -> (r: String)
    ensures
        r@ == upper_of(s@),
{
    s.to_uppercase()
}

impl<Kind> Identifier<BybitMarket> for Subscription<Bybit, Kind> {
    /// The market identity Bybit answers with: the instrument's base and
    /// quote symbols concatenated and upper-cased.
    open spec fn id_chars(&self) -> Seq<char> {
        upper_of(self.instrument.base@ + self.instrument.quote@)
    }

    fn id(&self) -> (r: BybitMarket) {
        let mut joined = self.instrument.base.clone();
        joined.append(self.instrument.quote.as_str());
        BybitMarket(to_uppercase(joined.as_str()))
    }
}

} // verus!
