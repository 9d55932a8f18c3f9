use vstd::prelude::*;

use crate::types::RegistryEntry;
use crate::types::EntryV;
use vstd::hash_map::StringHashMap;

verus! {

/// The registry store: at most one endpoint record per DID, each with
/// an expiry. Entries are upserted by `register`, read verbatim by
/// `lookup` (staleness is judged by the caller against the clock), and
/// removed by `deregister`. Expired entries are never swept; they stay
/// until overwritten or deregistered.
pub struct Registry {
    m: StringHashMap<RegistryEntry>,
}

impl View for Registry {
    type V = Map<Seq<char>, EntryV>;

    closed spec fn view(&self) -> Map<Seq<char>, EntryV> {
        self.m@.map_values(|e: RegistryEntry| e@)
    }
}

impl Registry {
    /// Every stored entry sits under its own DID, has a validity window
    /// that is not inverted, and names a non-empty endpoint.
    pub open spec fn wf(&self) -> bool {
        forall|k: Seq<char>| #[trigger] self@.contains_key(k) ==> self@[k].did == k
            && self@[k].registered_at <= self@[k].expires_at && self@[k].endpoint.len() > 0
    }

    pub fn new() -> (r: Self)
        ensures
            r@ == Map::<Seq<char>, EntryV>::empty(),
            r.wf(),
    {
        let r = Registry { m: StringHashMap::new() };
        proof {
            assert(r@ =~= Map::<Seq<char>, EntryV>::empty());
        }
        r
    }

    /// Unconditional upsert keyed by `entry.did`: any prior record for
    /// that DID, including its expiry, is replaced.
    pub fn register(&mut self, entry: RegistryEntry)
        requires
            old(self).wf(),
            entry.registered_at <= entry.expires_at,
            entry.endpoint@.len() > 0,
        ensures
            final(self).wf(),
            final(self)@ == old(self)@.insert(entry.did@, entry@),
    {
        let ghost k = entry.did@;
        let ghost v = entry@;
        let key = entry.did.clone();
        self.m.insert(key, entry);
        proof {
            assert(self@ =~= old(self)@.insert(k, v));
        }
    }

    /// Point lookup. Returns the stored entry verbatim, stale or not;
    /// callers derive the status themselves.
    pub fn lookup(&self, did: &str) -> (r: Option<RegistryEntry>)
        ensures
            match r {
                Some(e) => self@.contains_key(did@) && e@ == self@[did@],
                None => !self@.contains_key(did@),
            },
    {
        match self.m.get(did) {
            Some(e) => Some(e.clone()),
            None => None,
        }
    }

    /// Removes the entry if present; returns whether it existed.
    /// Idempotent: deregistering an absent DID returns false.
    pub fn deregister(&mut self, did: &str) -> (existed: bool)
        requires
            old(self).wf(),
        ensures
            final(self).wf(),
            existed == old(self)@.contains_key(did@),
            final(self)@ == old(self)@.remove(did@),
    {
        let existed = self.m.contains_key(did);
        self.m.remove(did);
        proof {
            assert(self@ =~= old(self)@.remove(did@));
        }
        existed
    }
}

} // verus!
