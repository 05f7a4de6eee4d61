//! A blob store that lives in memory.

use crate::error::ArchiveError;
use crate::storage::{blob_id, BlobId, Storage};
use vstd::prelude::*;

verus! {

/// One stored blob.
#[derive(Debug)]
pub struct Blob {
    pub subdir: Option<String>,
    pub key: String,
    pub body: Vec<u8>,
}

impl Blob {
    /// The address of the blob.
    pub open spec fn id(&self) -> BlobId {
        BlobId {
            subdir: match self.subdir {
                Some(s) => Some(s@),
                None => None,
            },
            key: self.key@,
        }
    }
}

/// What a list of blobs holds, a later entry standing in for an earlier one
/// at the same address.
pub open spec fn blobs_of(entries: Seq<Blob>) -> Map<BlobId, Seq<u8>>
    decreases entries.len(),
{
    if entries.len() == 0 {
        Map::empty()
    } else {
        blobs_of(entries.drop_last()).insert(entries.last().id(), entries.last().body@)
    }
}

/// Entries that do not have the address `id` take no part in what is held
/// at `id`.
proof fn lemma_lookup_skips(entries: Seq<Blob>, from: int, id: BlobId)
    requires
        0 <= from <= entries.len(),
        forall|k: int| from <= k < entries.len() ==> entries[k].id() != id,
    ensures
        blobs_of(entries).contains_key(id) == blobs_of(entries.take(from)).contains_key(id),
        blobs_of(entries)[id] == blobs_of(entries.take(from))[id],
    decreases entries.len() - from,
{
    if from == entries.len() {
        assert(entries.take(from) =~= entries);
    } else {
        let shorter = entries.drop_last();
        lemma_lookup_skips(shorter, from, id);
        assert(shorter.take(from) =~= entries.take(from));
    }
}

/// Replacing the body of the last entry at `id` is storing that body at
/// `id`.
proof fn lemma_replace_last_match(entries: Seq<Blob>, at: int, fresh: Blob)
    requires
        0 <= at < entries.len(),
        entries[at].id() == fresh.id(),
        forall|k: int| at < k < entries.len() ==> entries[k].id() != fresh.id(),
    ensures
        blobs_of(entries.update(at, fresh)) == blobs_of(entries).insert(fresh.id(), fresh.body@),
    decreases entries.len(),
{
    let changed = entries.update(at, fresh);
    if at == entries.len() - 1 {
        assert(changed.drop_last() =~= entries.drop_last());
    } else {
        lemma_replace_last_match(entries.drop_last(), at, fresh);
        assert(changed.drop_last() =~= entries.drop_last().update(at, fresh));
    }
}

/// A blob store in memory.
///
/// A store made with [`MemoryStorage::new`] never fails. One made with
/// [`MemoryStorage::bounded`] has room for so many blobs and fails to save
/// another one when it is full; what it holds it always hands out, and
/// replaces on request.
#[derive(Debug)]
pub struct MemoryStorage {
    entries: Vec<Blob>,
    limit: Option<usize>,
}

impl MemoryStorage {
    /// The number of entries that the store has room for, if it is
    /// bounded.
    pub closed spec fn limit(&self) -> Option<usize> {
        self.limit
    }

    /// The number of entries that the store keeps. A blob that is replaced
    /// keeps its entry.
    pub closed spec fn kept(&self) -> nat {
        self.entries@.len()
    }

    /// Whether the store has no room for a blob under a new address.
    pub open spec fn full(&self) -> bool {
        match self.limit() {
            Some(limit) => self.kept() >= limit,
            None => false,
        }
    }

    /// An empty store without a bound.
    pub fn new() -> (storage: Self)
        ensures
            storage.blobs() == Map::<BlobId, Seq<u8>>::empty(),
            storage.limit() is None,
            storage.kept() == 0,
    {
        MemoryStorage { entries: Vec::new(), limit: None }
    }

    /// An empty store with room for `limit` blobs.
    pub fn bounded(limit: usize) -> (storage: Self)
        ensures
            storage.blobs() == Map::<BlobId, Seq<u8>>::empty(),
            storage.limit() == Some(limit),
            storage.kept() == 0,
    {
        MemoryStorage { entries: Vec::new(), limit: Some(limit) }
    }

    /// Whether the store has no room for a blob under a new address.
    pub fn is_full(&self) -> (full: bool)
        ensures
            full == self.full(),
    {
        match self.limit {
            Some(limit) => self.entries.len() >= limit,
            None => false,
        }
    }

    /// The number of the last entry at the address, if there is one.
    fn find(&self, key: &str, subdir: Option<&str>) -> (at: Option<usize>)
        ensures
            at is Some <==> self.blobs().contains_key(blob_id(key, subdir)),
            at matches Some(i) ==> {
                &&& i < self.entries@.len()
                &&& self.entries@[i as int].id() == blob_id(key, subdir)
                &&& self.entries@[i as int].body@ == self.blobs()[blob_id(key, subdir)]
                &&& forall|k: int|
                    i < k < self.entries@.len() ==> self.entries@[k].id() != blob_id(key, subdir)
            },
    {
        let wanted_key = key.to_owned();
        let wanted_subdir: Option<String> = match subdir {
            Some(s) => Some(s.to_owned()),
            None => None,
        };
        let ghost id = blob_id(key, subdir);
        let mut i: usize = self.entries.len();
        while i > 0
            invariant
                i <= self.entries@.len(),
                wanted_key@ == key@,
                id == blob_id(key, subdir),
                match wanted_subdir {
                    Some(s) => subdir is Some && s@ == subdir->0@,
                    None => subdir is None,
                },
                forall|k: int| i <= k < self.entries@.len() ==> self.entries@[k].id() != id,
            decreases i,
        {
            i -= 1;
            let entry = &self.entries[i];
            let same_subdir = match (&entry.subdir, &wanted_subdir) {
                (Some(a), Some(b)) => *a == *b,
                (None, None) => true,
                _ => false,
            };
            if same_subdir && entry.key == wanted_key {
                proof {
                    lemma_lookup_skips(self.entries@, i + 1, id);
                }
                return Some(i);
            }
        }
        proof {
            lemma_lookup_skips(self.entries@, 0, id);
        }
        None
    }
}

impl Storage for MemoryStorage {
    closed spec fn blobs(&self) -> Map<BlobId, Seq<u8>> {
        blobs_of(self.entries@)
    }

    fn save(&mut self, key: &str, subdir: Option<&str>, body: &[u8]) -> (saved: Result<
        (),
        ArchiveError,
    >)
        ensures
            saved is Ok <==> old(self).blobs().contains_key(blob_id(key, subdir)) || !old(
                self,
            ).full(),
            saved is Err ==> final(self).blobs() == old(self).blobs(),
            final(self).limit() == old(self).limit(),
            final(self).kept() == if saved is Ok && !old(self).blobs().contains_key(
                blob_id(key, subdir),
            ) {
                old(self).kept() + 1
            } else {
                old(self).kept()
            },
    {
        let at = self.find(key, subdir);
        if at.is_none() && self.is_full() {
            return Err(ArchiveError::Storage);
        }
        let mut bytes: Vec<u8> = Vec::new();
        bytes.extend_from_slice(body);
        let fresh = Blob {
            subdir: match subdir {
                Some(s) => Some(s.to_owned()),
                None => None,
            },
            key: key.to_owned(),
            body: bytes,
        };
        assert(fresh.body@ =~= body@);
        match at {
            Some(i) => {
                proof {
                    lemma_replace_last_match(self.entries@, i as int, fresh);
                }
                self.entries.set(i, fresh);
            },
            None => {
                let ghost before = self.entries@;
                self.entries.push(fresh);
                assert(self.entries@.drop_last() =~= before);
            },
        }
        Ok(())
    }

    fn get(&self, key: &str, subdir: Option<&str>) -> (body: Result<Vec<u8>, ArchiveError>)
        ensures
            body is Ok <==> self.blobs().contains_key(blob_id(key, subdir)),
    {
        match self.find(key, subdir) {
            Some(i) => Ok(self.entries[i].body.clone()),
            None => Err(ArchiveError::NotFound),
        }
    }

    fn contains(&self, key: &str, subdir: Option<&str>) -> (found: Result<bool, ArchiveError>)
        ensures
            found is Ok,
    {
        Ok(self.find(key, subdir).is_some())
    }
}

} // verus!
