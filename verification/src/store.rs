//! The capability interface the adapter requires of its blob store, and an
//! in-memory store implementing it.
//!
//! The adapter depends only on this interface, never on a concrete storage
//! engine; any store — in-memory, disk, remote — can stand behind it, as long
//! as it meets the contracts: an existence check answers membership in the
//! store's contents, and a write either installs the blob whole or reports a
//! failure and changes nothing (all-or-nothing, by contract).

use vstd::prelude::*;

use crate::status::StoreError;

verus! {

/// The blob store collaborator. `contents` is the abstract state: the map
/// from content hash to stored bytes. Every operation may instead report a
/// categorized failure (`StoreError`), e.g. when the store is remote.
pub trait Store: Sized {
    /// The blobs the store holds, keyed by content hash.
    spec fn contents(&self) -> Map<Seq<char>, Seq<u8>>;

    /// Existence check for the blob named by `hash`; `size_bytes` is the
    /// declared size, metadata the store may use as it sees fit.
    fn has(&self, hash: &String, size_bytes: i64) -> (r: Result<bool, StoreError>)
        ensures
            r matches Ok(found) ==> found == self.contents().contains_key(hash@),
    ;

    /// Writes one blob under `hash`. A reported failure is all-or-nothing:
    /// the contents are then unchanged.
    fn update(&mut self, hash: &String, size: usize, data: Vec<u8>) -> (r: Result<(), StoreError>)
        requires
            data@.len() == size as int,
        ensures
            r is Ok ==> final(self).contents() == old(self).contents().insert(hash@, data@),
            r is Err ==> final(self).contents() == old(self).contents(),
    ;

    /// Reads the blob named by `hash`; on success the returned bytes are
    /// exactly the stored content.
    fn read(&self, hash: &String, size_bytes: i64) -> (r: Result<Vec<u8>, StoreError>)
        ensures
            r matches Ok(data) ==> self.contents().contains_key(hash@) && data@
                == self.contents()[hash@],
    ;
}

/// An in-memory store: a journal of writes, where the latest write under a
/// hash is the blob's content.
pub struct MemStore {
    pub entries: Vec<(String, Vec<u8>)>,
}

/// The map a journal of writes denotes: each entry inserted in order, so a
/// later write under the same hash shadows an earlier one.
pub open spec fn entries_map(s: Seq<(String, Vec<u8>)>) -> Map<Seq<char>, Seq<u8>>
    decreases s.len(),
{
    if s.len() == 0 {
        Map::<Seq<char>, Seq<u8>>::empty()
    } else {
        entries_map(s.drop_last()).insert(s.last().0@, s.last().1@)
    }
}

/// A key is in the journal's map exactly when some entry carries it.
pub proof fn lemma_entries_map_membership(s: Seq<(String, Vec<u8>)>, k: Seq<char>)
    ensures
        entries_map(s).contains_key(k) <==> exists|i: int| 0 <= i < s.len() && s[i].0@ == k,
    decreases s.len(),
{
    if s.len() > 0 {
        lemma_entries_map_membership(s.drop_last(), k);
        if s.last().0@ == k {
            assert(s[s.len() - 1].0@ == k);
        } else if entries_map(s).contains_key(k) {
            let i = choose|i: int| 0 <= i < s.drop_last().len() && s.drop_last()[i].0@ == k;
            assert(s[i].0@ == k);
        } else {
            assert forall|i: int| 0 <= i < s.len() implies s[i].0@ != k by {
                if i < s.len() - 1 {
                    assert(s.drop_last()[i].0@ == s[i].0@);
                }
            }
        }
    }
}

/// The value under a key is the latest entry that carries it.
pub proof fn lemma_entries_map_latest(s: Seq<(String, Vec<u8>)>, i: int)
    requires
        0 <= i < s.len(),
        forall|j: int| i < j < s.len() ==> s[j].0@ != s[i].0@,
    ensures
        entries_map(s).contains_key(s[i].0@),
        entries_map(s)[s[i].0@] == s[i].1@,
    decreases s.len(),
{
    if i == s.len() - 1 {
    } else {
        assert forall|j: int| i < j < s.drop_last().len() implies s.drop_last()[j].0@
            != s.drop_last()[i].0@ by {
            assert(s.drop_last()[j].0@ == s[j].0@);
        }
        lemma_entries_map_latest(s.drop_last(), i);
        assert(s.last().0@ != s[i].0@);
        assert(s.drop_last()[i].0@ == s[i].0@);
    }
}

impl MemStore {
    /// An empty store.
    pub fn new() -> (s: MemStore)
        ensures
            s.contents() == Map::<Seq<char>, Seq<u8>>::empty(),
    {
        MemStore { entries: Vec::new() }
    }
}

impl Store for MemStore {
    open spec fn contents(&self) -> Map<Seq<char>, Seq<u8>> {
        entries_map(self.entries@)
    }

    fn has(&self, hash: &String, size_bytes: i64) -> (r: Result<bool, StoreError>)
        ensures
            r is Ok,
            r matches Ok(found) ==> found == self.contents().contains_key(hash@),
    {
        let n = self.entries.len();
        let mut i: usize = 0;
        while i < n
            invariant
                n == self.entries@.len(),
                0 <= i <= n,
                forall|j: int| 0 <= j < i ==> self.entries@[j].0@ != hash@,
            decreases n - i,
        {
            if self.entries[i].0 == *hash {
                proof {
                    assert(self.entries@[i as int].0@ == hash@);
                    lemma_entries_map_membership(self.entries@, hash@);
                }
                return Ok(true);
            }
            i += 1;
        }
        proof {
            lemma_entries_map_membership(self.entries@, hash@);
        }
        Ok(false)
    }

    fn update(&mut self, hash: &String, size: usize, data: Vec<u8>) -> (r: Result<(), StoreError>)
        ensures
            r is Ok,
            r is Ok ==> final(self).contents() == old(self).contents().insert(hash@, data@),
    {
        let ghost before = self.entries@;
        self.entries.push((hash.clone(), data));
        proof {
            assert(self.entries@.drop_last() =~= before);
        }
        Ok(())
    }

    fn read(&self, hash: &String, size_bytes: i64) -> (r: Result<Vec<u8>, StoreError>)
        ensures
            r matches Ok(data) ==> self.contents().contains_key(hash@) && data@
                == self.contents()[hash@],
            r is Err ==> !self.contents().contains_key(hash@),
    {
        let n = self.entries.len();
        let mut i: usize = n;
        while i > 0
            invariant
                n == self.entries@.len(),
                0 <= i <= n,
                forall|j: int| i <= j < n ==> self.entries@[j].0@ != hash@,
            decreases i,
        {
            i -= 1;
            if self.entries[i].0 == *hash {
                proof {
                    lemma_entries_map_latest(self.entries@, i as int);
                }
                return Ok(self.entries[i].1.clone());
            }
        }
        proof {
            lemma_entries_map_membership(self.entries@, hash@);
        }
        Err(
            StoreError {
                kind: crate::status::StoreErrorKind::NotFound,
                message: String::from_str("Blob not found in store"),
            },
        )
    }
}

} // verus!
