//! The latest-value snapshot channel.
//!
//! One writer replaces the held snapshot wholesale; any number of
//! observers read it and wait for a version they have not seen. Bursts of
//! publishes coalesce: an observer that wakes late obtains only the newest
//! snapshot, never an intermediate one, and observers that wake together
//! obtain the very same value.

use vstd::prelude::*;

use crate::address_map::AddressMap;
use crate::feeder::PairOrTokenPriceInfo;

verus! {

/// The published mapping from target key to price entry.
pub type PriceSnapshot = AddressMap<PairOrTokenPriceInfo>;

/// An equal copy of a snapshot.
pub fn clone_snapshot(s: &PriceSnapshot) -> (r: PriceSnapshot)
    requires
        s.wf(),
    ensures
        r.wf(),
        r@ == s@,
{
    let list = s.entries();
    let n = list.len();
    let mut out = AddressMap::<PairOrTokenPriceInfo>::empty();
    let mut i: usize = 0;
    while i < n
        invariant
            i <= n,
            n == list@.len(),
            forall|j: int|
                0 <= j < n ==> s@.contains_key((#[trigger] list@[j].0)@) && s@[list@[j].0@]
                    == list@[j].1,
            forall|k: Seq<char>|
                s@.contains_key(k) ==> exists|j: int| 0 <= j < n && (#[trigger] list@[j].0)@ == k,
            out.wf(),
            forall|k: Seq<char>|
                #[trigger] out@.contains_key(k) ==> s@.contains_key(k) && out@[k] == s@[k],
            forall|j: int| 0 <= j < i ==> out@.contains_key((#[trigger] list@[j].0)@),
        decreases n - i,
    {
        let e = &list[i];
        if !out.contains_key(e.0.as_str()) {
            out.insert(e.0.clone(), e.1.duplicate());
        }
        i += 1;
    }
    proof {
        assert forall|k: Seq<char>| s@.contains_key(k) implies out@.contains_key(k) by {
            let w = choose|w: int| 0 <= w < list@.len() && (#[trigger] list@[w].0)@ == k;
        }
        assert(out@ =~= s@);
    }
    out
}

/// The single-writer, multi-reader cell holding the latest snapshot.
pub struct StateChannel {
    value: PriceSnapshot,
    version: u64,
}

/// An observer's place in the channel: the last version it has seen.
pub struct Observer {
    last_seen: u64,
}

impl Observer {
    pub closed spec fn spec_last_seen(&self) -> u64 {
        self.last_seen
    }
}

impl StateChannel {
    pub closed spec fn spec_version(&self) -> u64 {
        self.version
    }

    pub closed spec fn spec_value(&self) -> PriceSnapshot {
        self.value
    }

    pub open spec fn wf(&self) -> bool {
        self.spec_value().wf()
    }

    /// The channel after a publish: the value replaced wholesale, the
    /// version advanced by one.
    pub closed spec fn spec_publish(self, s: PriceSnapshot) -> StateChannel {
        StateChannel { value: s, version: (self.version + 1) as u64 }
    }

    /// A fresh channel holding `initial` at version zero.
    pub fn new(initial: PriceSnapshot) -> (c: StateChannel)
        requires
            initial.wf(),
        ensures
            c.wf(),
            c.spec_version() == 0,
            c.spec_value() == initial,
    {
        StateChannel { value: initial, version: 0 }
    }

    /// Replaces the held snapshot and advances the version, so that every
    /// observer has news to pick up exactly once.
    pub fn publish(&mut self, snapshot: PriceSnapshot)
        requires
            old(self).spec_version() < u64::MAX,
            snapshot.wf(),
        ensures
            *final(self) == old(self).spec_publish(snapshot),
            final(self).wf(),
            final(self).spec_version() == old(self).spec_version() + 1,
            final(self).spec_value() == snapshot,
    {
        self.version = self.version + 1;
        self.value = snapshot;
    }

    /// The version counter: how many publishes the channel has seen.
    pub fn version(&self) -> (v: u64)
        ensures
            v == self.spec_version(),
    {
        self.version
    }

    /// A new observer, current as of the present version.
    pub fn subscribe(&self) -> (o: Observer)
        ensures
            o.spec_last_seen() == self.spec_version(),
    {
        Observer { last_seen: self.version }
    }

    /// The latest snapshot, readable at any time.
    pub fn latest(&self) -> (r: &PriceSnapshot)
        ensures
            *r == self.spec_value(),
    {
        &self.value
    }

    /// What polling yields: the current snapshot exactly when the channel
    /// moved past the observer's last seen version.
    pub open spec fn spec_poll(&self, o: Observer) -> Option<Map<Seq<char>, PairOrTokenPriceInfo>> {
        if o.spec_last_seen() < self.spec_version() {
            Some(self.spec_value()@)
        } else {
            None
        }
    }

    /// Picks up the latest snapshot if the observer has not seen it yet;
    /// the observer is then current. However many publishes passed since
    /// the observer last looked, only the newest snapshot is returned.
    pub fn poll_change(&self, o: &mut Observer) -> (r: Option<PriceSnapshot>)
        requires
            self.wf(),
        ensures
            r is Some <==> self.spec_poll(*old(o)) is Some,
            r matches Some(s) ==> s.wf() && Some(s@) == self.spec_poll(*old(o)),
            self.spec_poll(*old(o)) is Some ==> final(o).spec_last_seen() == self.spec_version(),
            self.spec_poll(*old(o)) is None ==> *final(o) == *old(o),
    {
        if o.last_seen < self.version {
            o.last_seen = self.version;
            Some(clone_snapshot(&self.value))
        } else {
            None
        }
    }
}

/// Observers never tear: two observers that both have news obtain the very
/// same snapshot value.
pub proof fn lemma_no_tearing(c: &StateChannel, o1: Observer, o2: Observer)
    requires
        c.spec_poll(o1) is Some,
        c.spec_poll(o2) is Some,
    ensures
        c.spec_poll(o1) == c.spec_poll(o2),
{
}

/// Publishes coalesce: after two publishes in a row, an observer that was
/// current before them polls the second snapshot, never the first.
pub proof fn lemma_coalescing(c: StateChannel, s1: PriceSnapshot, s2: PriceSnapshot, o: Observer)
    requires
        o.spec_last_seen() <= c.spec_version() + 1,
        c.spec_version() + 2 <= u64::MAX,
    ensures
        c.spec_publish(s1).spec_publish(s2).spec_poll(o) == Some(s2@),
{
}

} // verus!
