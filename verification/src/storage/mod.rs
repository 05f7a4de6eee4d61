//! The blob store: where the bytes of attachments and thumbnails are kept.
//!
//! A blob is addressed by a key inside a namespace, one namespace per board.
//! The store is written once per key: the archiver asks whether a key is
//! there before it fetches anything, and stores only what is missing.

pub mod local;
pub mod memory;

use crate::error::ArchiveError;
use vstd::prelude::*;
use vstd::string::StrSliceExecFns;

verus! {

/// The address of a blob: its namespace, if it has one, and its key.
pub struct BlobId {
    pub subdir: Option<Seq<char>>,
    pub key: Seq<char>,
}

/// The address that `key` and `subdir` stand for.
pub open spec fn blob_id(key: &str, subdir: Option<&str>) -> BlobId {
    BlobId {
        subdir: match subdir {
            Some(s) => Some(s@),
            None => None,
        },
        key: key@,
    }
}

/// Whether two states of a store hold the same at every address but `id`.
pub open spec fn same_elsewhere(
    before: Map<BlobId, Seq<u8>>,
    after: Map<BlobId, Seq<u8>>,
    id: BlobId,
) -> bool {
    forall|other: BlobId|
        other != id ==> after.contains_key(other) == before.contains_key(other) && after[other]
            == before[other]
}

/// A blob store.
///
/// `blobs` is what the store holds. A store may fail where it cannot read
/// or write, so none of its operations is bound to succeed; each says what
/// holds of the store when it did and when it did not.
pub trait Storage {
    /// What the store holds.
    spec fn blobs(&self) -> Map<BlobId, Seq<u8>>;

    /// Stores `body` under `key`. On success the store holds `body` there
    /// and is otherwise unchanged; on failure only what is under `key` may
    /// have changed.
    fn save(&mut self, key: &str, subdir: Option<&str>, body: &[u8]) -> (saved: Result<
        (),
        ArchiveError,
    >)
        ensures
            saved is Ok ==> final(self).blobs() == old(self).blobs().insert(
                blob_id(key, subdir),
                body@,
            ),
            saved matches Err(e) ==> e == ArchiveError::Storage,
            same_elsewhere(old(self).blobs(), final(self).blobs(), blob_id(key, subdir)),
    ;

    /// The bytes stored under `key`. A key that is not there is `NotFound`;
    /// a key that is there yields its bytes unless the store fails.
    fn get(&self, key: &str, subdir: Option<&str>) -> (body: Result<Vec<u8>, ArchiveError>)
        ensures
            body matches Ok(bytes) ==> self.blobs().contains_key(blob_id(key, subdir)) && bytes@
                == self.blobs()[blob_id(key, subdir)],
            body matches Err(e) ==> e == if self.blobs().contains_key(blob_id(key, subdir)) {
                ArchiveError::Storage
            } else {
                ArchiveError::NotFound
            },
    ;

    /// Whether anything is stored under `key`.
    fn contains(&self, key: &str, subdir: Option<&str>) -> (found: Result<bool, ArchiveError>)
        ensures
            found matches Ok(there) ==> there == self.blobs().contains_key(blob_id(key, subdir)),
            found matches Err(e) ==> e == ArchiveError::Storage,
    ;
}

/// The number of directory levels that a key of `len` characters is spread
/// over: one for every two characters, and four at most.
pub open spec fn shard_count(len: nat) -> nat {
    if len >= 7 {
        4
    } else {
        (len + 1) / 2
    }
}

/// The path segments under which `key` is filed: its first eight characters
/// in pieces of two, the last piece a single character where the key is
/// shorter than eight and of odd length.
pub open spec fn spec_split_path(key: Seq<char>) -> Seq<Seq<char>> {
    Seq::new(
        shard_count(key.len()),
        |i: int|
            key.subrange(
                2 * i,
                if 2 * i + 2 <= key.len() {
                    2 * i + 2
                } else {
                    key.len() as int
                },
            ),
    )
}

/// The characters of each string of a list.
pub open spec fn texts(strings: Seq<String>) -> Seq<Seq<char>> {
    strings.map_values(|s: String| s@)
}

/// The path segments under which `key` is filed, outermost first: up to
/// four segments of two characters each, taken from the first eight
/// characters of the key.
#[must_use]
pub fn split_path(key: &str) -> (segments: Vec<String>)
    ensures
        texts(segments@) == spec_split_path(key@),
{
    let len = key.unicode_len();
    let mut segments: Vec<String> = Vec::new();
    let mut at: usize = 0;
    while at < len && segments.len() < 4
        invariant
            len == key@.len(),
            at <= len,
            segments@.len() <= 4,
            at == if 2 * segments@.len() <= len {
                2 * segments@.len() as int
            } else {
                len as int
            },
            segments@.len() <= shard_count(key@.len()),
            forall|i: int|
                0 <= i < segments@.len() ==> (#[trigger] segments@[i])@ == spec_split_path(
                    key@,
                )[i],
        decreases len - at,
    {
        let end = if len - at >= 2 {
            at + 2
        } else {
            len
        };
        let piece = key.substring_char(at, end);
        segments.push(piece.to_owned());
        at = end;
    }
    segments
}

/// What is to be done about a blob.
#[derive(Debug, Clone, Copy, PartialEq, Eq, Structural)]
pub enum SavePlan {
    /// The store has it: nothing is fetched and nothing is written.
    Present,
    /// The store lacks it and its bytes are not at hand: fetch them.
    Fetch,
    /// The store lacks it and its bytes are at hand: store them.
    Store,
}

/// What is to be done about a blob, given what the store answered when asked
/// for it and whether the bytes are at hand.
pub open spec fn spec_plan_save(found: Result<bool, ArchiveError>, fetched: bool) -> Result<
    SavePlan,
    ArchiveError,
> {
    match found {
        Ok(true) => Ok(SavePlan::Present),
        Ok(false) => if fetched {
            Ok(SavePlan::Store)
        } else {
            Ok(SavePlan::Fetch)
        },
        Err(e) => Err(e),
    }
}

/// What is to be done about a blob, given what the store answered when asked
/// whether it has it, and whether the bytes are at hand. A blob that is
/// there is never fetched.
pub fn plan_save(found: Result<bool, ArchiveError>, fetched: bool) -> (plan: Result<
    SavePlan,
    ArchiveError,
>)
    ensures
        plan == spec_plan_save(found, fetched),
{
    match found {
        Ok(true) => Ok(SavePlan::Present),
        Ok(false) => if fetched {
            Ok(SavePlan::Store)
        } else {
            Ok(SavePlan::Fetch)
        },
        Err(e) => Err(e),
    }
}

/// Saves a blob unless the store has it.
///
/// The store is asked first. Where it has the key, nothing more happens and
/// the outcome is `Present`. Where it lacks the key and `body` is `None`, the
/// outcome is `Fetch`: the caller fetches the bytes and calls again with
/// them. Where it lacks the key and `body` holds the bytes, they are stored
/// and the outcome is `Store`.
pub fn save_file<S: Storage>(
    storage: &mut S,
    key: &str,
    subdir: Option<&str>,
    body: Option<&[u8]>,
) -> (outcome: Result<SavePlan, ArchiveError>)
    ensures
        match outcome {
            Ok(SavePlan::Present) => {
                &&& old(storage).blobs().contains_key(blob_id(key, subdir))
                &&& final(storage).blobs() == old(storage).blobs()
            },
            Ok(SavePlan::Fetch) => {
                &&& !old(storage).blobs().contains_key(blob_id(key, subdir))
                &&& body is None
                &&& final(storage).blobs() == old(storage).blobs()
            },
            Ok(SavePlan::Store) => {
                &&& !old(storage).blobs().contains_key(blob_id(key, subdir))
                &&& body is Some
                &&& final(storage).blobs() == old(storage).blobs().insert(
                    blob_id(key, subdir),
                    body->0@,
                )
            },
            Err(e) => {
                &&& e == ArchiveError::Storage
                &&& same_elsewhere(
                    old(storage).blobs(),
                    final(storage).blobs(),
                    blob_id(key, subdir),
                )
            },
        },
{
    let found = storage.contains(key, subdir);
    match plan_save(found, body.is_some()) {
        Ok(SavePlan::Store) => {
            match body {
                Some(bytes) => match storage.save(key, subdir, bytes) {
                    Ok(()) => Ok(SavePlan::Store),
                    Err(e) => Err(e),
                },
                None => Ok(SavePlan::Fetch),
            }
        },
        Ok(plan) => Ok(plan),
        Err(e) => Err(e),
    }
}

/// What was saved is there, and is what comes back: after a save the
/// store holds the saved bytes under the key, whether or not the key was
/// there before, and everything else as before. So a key that
/// [`Storage::contains`] denies is, after a [`Storage::save`] that
/// succeeds, a key that [`Storage::get`] can only answer with the saved
/// bytes.
pub proof fn lemma_saved_is_stored(before: Map<BlobId, Seq<u8>>, id: BlobId, body: Seq<u8>)
    ensures
        before.insert(id, body).contains_key(id),
        before.insert(id, body)[id] == body,
        same_elsewhere(before, before.insert(id, body), id),
{
}

/// A blob that is there is never fetched, whether or not its bytes are at
/// hand, and a blob is stored only where the store said that it lacks it.
pub proof fn lemma_present_is_never_fetched(found: Result<bool, ArchiveError>, fetched: bool)
    ensures
        found == Ok::<bool, ArchiveError>(true) ==> spec_plan_save(found, fetched) == Ok::<
            SavePlan,
            ArchiveError,
        >(SavePlan::Present),
        spec_plan_save(found, fetched) == Ok::<SavePlan, ArchiveError>(SavePlan::Fetch) ==> found
            == Ok::<bool, ArchiveError>(false) && !fetched,
        spec_plan_save(found, fetched) == Ok::<SavePlan, ArchiveError>(SavePlan::Store) ==> found
            == Ok::<bool, ArchiveError>(false) && fetched,
{
}

} // verus!
