//! The key material a benchmark run supplies: encoded certificates and keys,
//! each filed under what it is and under the signature algorithm it belongs
//! to. The harness only looks entries up and passes the bytes on.

use crate::harness::{PemType, SigType};
use vstd::prelude::*;

verus! {

/// One piece of encoded key material with the key it is filed under.
#[derive(Debug)]
pub struct PemEntry {
    pem_type: PemType,
    sig_type: SigType,
    bytes: Vec<u8>,
}

/// A store of key material. Filing a second entry under a key that is
/// already taken replaces the first.
#[derive(Debug)]
pub struct PemStore {
    entries: Vec<PemEntry>,
}

/// The store as mathematics: a map from what a piece of material is to its
/// bytes.
pub type PemStoreView = Map<(PemType, SigType), Seq<u8>>;

/// The map that a list of entries stands for: later entries win.
spec fn entries_map(entries: Seq<PemEntry>) -> PemStoreView
    decreases entries.len(),
{
    if entries.len() == 0 {
        Map::empty()
    } else {
        let last = entries.last();
        entries_map(entries.drop_last()).insert((last.pem_type, last.sig_type), last.bytes@)
    }
}

/// An entry after which no entry has the same key is the one the map holds;
/// a key that no entry has is not in the map.
proof fn lemma_entries_map(entries: Seq<PemEntry>, key: (PemType, SigType), at: int)
    requires
        -1 <= at < entries.len(),
        at >= 0 ==> (entries[at].pem_type, entries[at].sig_type) == key,
        forall|j: int|
            at < j < entries.len() ==> (#[trigger] entries[j].pem_type, entries[j].sig_type)
                != key,
    ensures
        at >= 0 ==> entries_map(entries).contains_key(key) && entries_map(entries)[key]
            == entries[at].bytes@,
        at < 0 ==> !entries_map(entries).contains_key(key),
    decreases entries.len(),
{
    if entries.len() > 0 {
        let rest = entries.drop_last();
        if at < entries.len() - 1 {
            assert((entries.last().pem_type, entries.last().sig_type) != key);
            assert forall|j: int| at < j < rest.len() implies (
                #[trigger] rest[j].pem_type,
                rest[j].sig_type,
            ) != key by {
                assert(rest[j] == entries[j]);
            }
            lemma_entries_map(rest, key, at);
        }
    }
}

impl View for PemStore {
    type V = PemStoreView;

    closed spec fn view(&self) -> PemStoreView {
        entries_map(self.entries@)
    }
}

impl PemStore {
    /// A store that holds nothing.
    pub fn new() -> (store: Self)
        ensures
            store@ == Map::<(PemType, SigType), Seq<u8>>::empty(),
    {
        PemStore { entries: Vec::new() }
    }

    /// Files `bytes` under `pem_type` and `sig_type`.
    pub fn insert(&mut self, pem_type: PemType, sig_type: SigType, bytes: Vec<u8>)
        ensures
            final(self)@ == old(self)@.insert((pem_type, sig_type), bytes@),
    {
        self.entries.push(PemEntry { pem_type, sig_type, bytes });
        assert(self.entries@.drop_last() == old(self).entries@);
    }

    /// The material filed under `pem_type` and `sig_type`, if there is any.
    pub fn read_to_bytes(&self, pem_type: PemType, sig_type: SigType) -> (found: Option<&Vec<u8>>)
        ensures
            match found {
                Some(bytes) => self@.contains_key((pem_type, sig_type)) && bytes@ == self@[(
                    pem_type,
                    sig_type,
                )],
                None => !self@.contains_key((pem_type, sig_type)),
            },
    {
        let mut i: usize = self.entries.len();
        while i > 0
            invariant
                i <= self.entries@.len(),
                forall|j: int|
                    i <= j < self.entries@.len() ==> (
                        #[trigger] self.entries@[j].pem_type,
                        self.entries@[j].sig_type,
                    ) != (pem_type, sig_type),
            decreases i,
        {
            i -= 1;
            let entry = &self.entries[i];
            if entry.pem_type == pem_type && entry.sig_type == sig_type {
                proof {
                    lemma_entries_map(self.entries@, (pem_type, sig_type), i as int);
                }
                return Some(&entry.bytes);
            }
        }
        proof {
            lemma_entries_map(self.entries@, (pem_type, sig_type), -1);
        }
        None
    }
}

} // verus!
