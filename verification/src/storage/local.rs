//! Where a store on the local filesystem keeps each blob.

use crate::storage::{split_path, spec_split_path, texts};
use vstd::prelude::*;

verus! {

/// A blob store rooted at a directory of the local filesystem.
///
/// Below the root each namespace has a directory of its own. Inside it a
/// blob lies under the directories that [`split_path`] gives for its key, in
/// a file named by the key.
#[derive(Debug, Clone)]
pub struct LocalStorage {
    /// The directory under which the files are kept.
    path: String,
}

/// The directories from the root down to the one that holds the blob: the
/// namespace, where there is one, and then the segments of the key.
pub open spec fn spec_directory(key: Seq<char>, subdir: Option<Seq<char>>) -> Seq<Seq<char>> {
    match subdir {
        Some(s) => seq![s] + spec_split_path(key),
        None => spec_split_path(key),
    }
}

impl LocalStorage {
    /// The root directory.
    pub closed spec fn view(&self) -> Seq<char> {
        self.path@
    }

    /// A store rooted at `path`.
    pub fn new(path: &str) -> (storage: Self)
        ensures
            storage@ == path@,
    {
        Self { path: path.to_owned() }
    }

    /// The root directory.
    pub fn root(&self) -> (path: &str)
        ensures
            path@ == self@,
    {
        self.path.as_str()
    }

    /// The directories between the root and the file of the blob, outermost
    /// first. All of them have to exist before the blob is written.
    pub fn directory(&self, key: &str, subdir: Option<&str>) -> (segments: Vec<String>)
        ensures
            texts(segments@) == spec_directory(
                key@,
                match subdir {
                    Some(s) => Some(s@),
                    None => None,
                },
            ),
    {
        let mut shards = split_path(key);
        match subdir {
            Some(s) => {
                let mut segments: Vec<String> = Vec::new();
                segments.push(s.to_owned());
                segments.append(&mut shards);
                segments
            },
            None => shards,
        }
    }

    /// The path of the blob's file below the root, segment by segment: its
    /// directories and then the key itself.
    pub fn location(&self, key: &str, subdir: Option<&str>) -> (segments: Vec<String>)
        ensures
            texts(segments@) == spec_directory(
                key@,
                match subdir {
                    Some(s) => Some(s@),
                    None => None,
                },
            ).push(key@),
    {
        let mut segments = self.directory(key, subdir);
        segments.push(key.to_owned());
        segments
    }
}

} // verus!
