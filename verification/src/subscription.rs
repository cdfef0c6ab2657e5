//! Subscription identity: the key extracted from inbound frames, the caller's
//! requested subscription, and the map that ties the two together for the
//! lifetime of a connection.
use vstd::prelude::*;
use crate::model::Instrument;

verus! {

/// Identity extracted from an inbound frame (for example `"trade.XBTUSD"`),
/// sufficient to look up which logical subscription produced the frame.
#[derive(PartialEq, Eq, Hash, Debug)]
pub struct SubscriptionId(pub String);

impl View for SubscriptionId {
    type V = Seq<char>;

    open spec fn view(&self) -> Seq<char> {
        self.0@
    }
}

impl SubscriptionId {
    pub fn new(id: &str) -> (r: SubscriptionId)
        ensures
            r@ == id@,
    {
        SubscriptionId(id.to_owned())
    }
}

/// Marker for the public-trades feed kind.
#[derive(Copy, Clone, PartialEq, Eq, Structural, Debug)]
pub struct PublicTrades;

/// A caller's request for one feed on one exchange.
#[derive(PartialEq, Eq, Debug)]
pub struct Subscription<Exchange, Kind> {
    pub exchange: Exchange,
    pub instrument: Instrument,
    pub kind: Kind,
}

/// Types that can derive an exchange-specific identity token from
/// themselves, such as the wire channel or market for a subscription.
pub trait Identifier<T: View<V = Seq<char>>> {
    /// The characters of the identity this value maps to.
    spec fn id_chars(&self) -> Seq<char>;

    fn id(&self) -> (r: T)
        ensures
            r@ == self.id_chars(),
    ;
}

/// One resolved subscription: the inbound identity it answers to, the
/// instrument it concerns, and the requested feed kind.
#[derive(PartialEq, Eq, Debug)]
pub struct SubscriptionEntry<Kind> {
    pub id: SubscriptionId,
    pub instrument: Instrument,
    pub kind: Kind,
}

/// Mapping from [`SubscriptionId`] to subscription metadata. Built once
/// before the handshake, owned by the validator until it returns it, then
/// read-only while the transformer runs. Lookup resolves to the first entry
/// whose identity matches.
#[derive(PartialEq, Eq, Debug)]
pub struct SubscriptionMap<Kind> {
    pub entries: Vec<SubscriptionEntry<Kind>>,
}

/// Index of the first entry whose identity is `id`, if any.
pub open spec fn spec_find<Kind>(entries: Seq<SubscriptionEntry<Kind>>, id: Seq<char>) -> Option<int>
    decreases entries.len(),
{
    if entries.len() == 0 {
        None
    } else if entries[0].id@ == id {
        Some(0)
    } else {
        match spec_find(entries.drop_first(), id) {
            Some(j) => Some(j + 1),
            None => None,
        }
    }
}

/// `spec_find` returns exactly the first matching index: a match at `i`
/// with no match before it pins `Some(i)`, and no match at all pins `None`.
pub proof fn lemma_spec_find_characterization<Kind>(entries: Seq<SubscriptionEntry<Kind>>, id: Seq<char>)
    ensures
        match spec_find(entries, id) {
            Some(i) => 0 <= i < entries.len() && entries[i].id@ == id
                && (forall|k: int| 0 <= k < i ==> entries[k].id@ != id),
            None => forall|k: int| 0 <= k < entries.len() ==> entries[k].id@ != id,
        },
    decreases entries.len(),
{
    if entries.len() > 0 && entries[0].id@ != id {
        let rest = entries.drop_first();
        lemma_spec_find_characterization(rest, id);
        match spec_find(rest, id) {
            Some(j) => {
                assert(rest[j] == entries[j + 1]);
                assert forall|k: int| 0 <= k < j + 1 implies entries[k].id@ != id by {
                    if k > 0 {
                        assert(rest[k - 1] == entries[k]);
                    }
                }
            },
            None => {
                assert forall|k: int| 0 <= k < entries.len() implies entries[k].id@ != id by {
                    if k > 0 {
                        assert(rest[k - 1] == entries[k]);
                    }
                }
            },
        }
    }
}

impl<Kind> SubscriptionMap<Kind> {
    pub open spec fn spec_len(&self) -> nat {
        self.entries@.len()
    }

    pub fn len(&self) -> (r: usize)
        ensures
            r == self.spec_len(),
    {
        self.entries.len()
    }

    /// Look up the entry answering to `id`; `None` when the identity is
    /// unknown to this map.
    pub fn find_index(&self, id: &SubscriptionId) -> (r: Option<usize>)
        ensures
            match spec_find(self.entries@, id@) {
                Some(i) => r matches Some(u) && u == i,
                None => r is None,
            },
    {
        let n = self.entries.len();
        let mut i: usize = 0;
        while i < n
            invariant
                n == self.entries@.len(),
                0 <= i <= n,
                forall|k: int| 0 <= k < i ==> self.entries@[k].id@ != id@,
            decreases n - i,
        {
            if self.entries[i].id.0 == id.0 {
                proof {
                    lemma_spec_find_characterization(self.entries@, id@);
                }
                return Some(i);
            }
            i += 1;
        }
        proof {
            lemma_spec_find_characterization(self.entries@, id@);
        }
        None
    }
}

} // verus!
