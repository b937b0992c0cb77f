//! The record store: two key-aligned projections of the same logical
//! entities, with the narrow point-lookup / insert / update-by-key interface
//! that the orchestrator needs.

use vstd::prelude::*;
use vstd::hash_map::StringHashMap;
use crate::records::{GmStatsByAddress, GmStatsByAddressV2};

verus! {

/// The two projections of the streak records, keyed identically by
/// `address_chain`.
pub struct GmDb {
    pub v1: StringHashMap<GmStatsByAddress>,
    pub v2: StringHashMap<GmStatsByAddressV2>,
}

impl GmDb {
    /// Well-formedness of the store: every record sits under its own key,
    /// and a key with an extended record also has an older-shape record (the
    /// only allowed divergence is an older-shape record not yet migrated).
    pub open spec fn wf(&self) -> bool {
        &&& forall|k: Seq<char>|
            self.v1@.contains_key(k) ==> (#[trigger] self.v1@[k]).address_chain@ == k
        &&& forall|k: Seq<char>|
            self.v2@.contains_key(k) ==> (#[trigger] self.v2@[k]).address_chain@ == k
        &&& forall|k: Seq<char>| #[trigger]
            self.v2@.contains_key(k) ==> self.v1@.contains_key(k)
    }

    /// An empty store.
    pub fn new() -> (r: GmDb)
        ensures
            r.v1@ == Map::<Seq<char>, GmStatsByAddress>::empty(),
            r.v2@ == Map::<Seq<char>, GmStatsByAddressV2>::empty(),
            r.wf(),
    {
        GmDb { v1: StringHashMap::new(), v2: StringHashMap::new() }
    }

    /// Point lookup in the older-shape projection.
    pub fn find_v1(&self, key: &String) -> (r: Option<&GmStatsByAddress>)
        ensures
            match r {
                Some(rec) => self.v1@.contains_key(key@) && *rec == self.v1@[key@],
                None => !self.v1@.contains_key(key@),
            },
    {
        self.v1.get(key.as_str())
    }

    /// Point lookup in the extended projection.
    pub fn find_v2(&self, key: &String) -> (r: Option<&GmStatsByAddressV2>)
        ensures
            match r {
                Some(rec) => self.v2@.contains_key(key@) && *rec == self.v2@[key@],
                None => !self.v2@.contains_key(key@),
            },
    {
        self.v2.get(key.as_str())
    }

    /// Inserts a new older-shape record under its own key.  The engine
    /// signals a conflict if the key is already present, so that input is
    /// excluded here.
    pub fn insert_v1(&mut self, rec: GmStatsByAddress)
        requires
            !old(self).v1@.contains_key(rec.address_chain@),
        ensures
            final(self).v1@ == old(self).v1@.insert(rec.address_chain@, rec),
            final(self).v2@ == old(self).v2@,
    {
        let key = rec.address_chain.clone();
        self.v1.insert(key, rec);
    }

    /// Inserts a new extended record under its own key; the key must not be
    /// taken yet in that projection.
    pub fn insert_v2(&mut self, rec: GmStatsByAddressV2)
        requires
            !old(self).v2@.contains_key(rec.address_chain@),
        ensures
            final(self).v2@ == old(self).v2@.insert(rec.address_chain@, rec),
            final(self).v1@ == old(self).v1@,
    {
        let key = rec.address_chain.clone();
        self.v2.insert(key, rec);
    }

    /// Replaces the older-shape record under the record's key.  The engine
    /// signals a conflict if no such record exists, so that input is
    /// excluded here.
    pub fn update_v1(&mut self, rec: GmStatsByAddress)
        requires
            old(self).v1@.contains_key(rec.address_chain@),
        ensures
            final(self).v1@ == old(self).v1@.insert(rec.address_chain@, rec),
            final(self).v2@ == old(self).v2@,
    {
        let key = rec.address_chain.clone();
        self.v1.insert(key, rec);
    }

    /// Replaces the extended record under the record's key; the key must
    /// already be present in that projection.
    pub fn update_v2(&mut self, rec: GmStatsByAddressV2)
        requires
            old(self).v2@.contains_key(rec.address_chain@),
        ensures
            final(self).v2@ == old(self).v2@.insert(rec.address_chain@, rec),
            final(self).v1@ == old(self).v1@,
    {
        let key = rec.address_chain.clone();
        self.v2.insert(key, rec);
    }
}

} // verus!
