//! Generic subscription data consumed by a `Connector`.
//!
//! A user-level subscription is translated into an [`ExchangeSub`]: the
//! exchange-specific (channel, market) pair naming one subscribable stream.
//! The set of actioned subscriptions, keyed per subscription identity, is
//! held in a [`SubscriptionMap`].

use vstd::prelude::*;

verus! {

/// The kind of instrument a subscription concerns.
#[derive(Copy, Clone, Eq, PartialEq, Debug, Structural)]
pub enum InstrumentKind {
    Spot,
    FuturePerpetual,
}

/// A tradable instrument: base and quote currency plus the instrument kind.
#[derive(Clone, Debug)]
pub struct Instrument {
    pub base: String,
    pub quote: String,
    pub kind: InstrumentKind,
}

/// One subscribable stream: the exchange-specific channel and market pair a
/// generic subscription translates to.
#[derive(Clone, Debug)]
pub struct ExchangeSub<Channel, Market> {
    /// Exchange-specific channel token to subscribe to (eg/ a trades feed).
    pub channel: Channel,
    /// Exchange-specific market token to subscribe to (eg/ a currency pair).
    pub market: Market,
}

impl<Channel, Market> ExchangeSub<Channel, Market> {
    /// Pair a channel with a market.
    pub fn new(channel: Channel, market: Market) -> (sub: ExchangeSub<Channel, Market>)
        ensures
            sub.channel == channel,
            sub.market == market,
    {
        ExchangeSub { channel, market }
    }
}

/// Whether a subscription-map view holds the given key.
pub open spec fn contains_key(m: Seq<(Seq<char>, Instrument)>, key: Seq<char>) -> bool {
    exists|i: int| 0 <= i < m.len() && m[i].0 == key
}

/// Whether every key of a subscription-map view occurs once.
pub open spec fn distinct_keys(m: Seq<(Seq<char>, Instrument)>) -> bool {
    forall|i: int, j: int| 0 <= i < j < m.len() ==> m[i].0 != m[j].0
}

/// The set of actioned subscriptions of one connection attempt: instruments
/// keyed by their subscription identity. Insertion order is kept; each key
/// occurs at most once.
#[derive(Clone, Debug)]
pub struct SubscriptionMap {
    entries: Vec<(String, Instrument)>,
}

impl View for SubscriptionMap {
    type V = Seq<(Seq<char>, Instrument)>;

    closed spec fn view(&self) -> Seq<(Seq<char>, Instrument)> {
        self.entries@.map_values(|e: (String, Instrument)| (e.0@, e.1))
    }
}

impl SubscriptionMap {
    /// Every key occurs at most once. Constructors establish this and
    /// methods preserve it.
    pub open spec fn wf(&self) -> bool {
        distinct_keys(self@)
    }

    /// An empty map.
    pub fn new() -> (m: SubscriptionMap)
        ensures
            m@ == Seq::<(Seq<char>, Instrument)>::empty(),
            m.wf(),
    {
        let m = SubscriptionMap { entries: Vec::new() };
        proof {
            assert(m@ =~= Seq::<(Seq<char>, Instrument)>::empty());
        }
        m
    }

    /// The number of distinct instruments held.
    pub fn len(&self) -> (n: usize)
        ensures
            n == self@.len(),
    {
        self.entries.len()
    }

    /// Associate `key` with `value`. An existing entry under the same key is
    /// replaced in place; otherwise the entry is appended.
    pub fn insert(&mut self, key: String, value: Instrument)
        requires
            old(self).wf(),
        ensures
            final(self).wf(),
            contains_key(final(self)@, key@),
            !contains_key(old(self)@, key@) ==> final(self)@ == old(self)@.push((key@, value)),
            contains_key(old(self)@, key@) ==> exists|i: int|
                0 <= i < old(self)@.len() && old(self)@[i].0 == key@ && final(self)@ == old(
                    self,
                )@.update(i, (key@, value)),
    {
        let n = self.entries.len();
        let mut i: usize = 0;
        while i < n
            invariant
                i <= n,
                n == self.entries@.len(),
                *self == *old(self),
                old(self).wf(),
                forall|j: int| 0 <= j < i ==> old(self)@[j].0 != key@,
            decreases n - i,
        {
            if self.entries[i].0 == key {
                self.entries[i] = (key, value);
                proof {
                    assert(old(self)@[i as int].0 == key@);
                    assert(self@ =~= old(self)@.update(i as int, (key@, value)));
                    assert(self@[i as int].0 == key@);
                    assert(contains_key(self@, key@));
                    assert(contains_key(old(self)@, key@));
                    assert forall|j: int, k: int|
                        0 <= j < k < self@.len() implies self@[j].0 != self@[k].0 by {
                        assert(old(self)@[j].0 != old(self)@[k].0);
                        assert(self@[j].0 == old(self)@[j].0);
                        assert(self@[k].0 == old(self)@[k].0);
                    }
                }
                return ;
            }
            i += 1;
        }
        self.entries.push((key, value));
        proof {
            assert(self@ =~= old(self)@.push((key@, value)));
            assert(self@[self@.len() - 1].0 == key@);
            assert(contains_key(self@, key@));
        }
    }
}

} // verus!
