//! The ways in which archiving can fail.

use vstd::prelude::*;

verus! {

/// What went wrong.
///
/// A thread that is unchanged or gone is no error: see
/// [`ThreadResponse`](crate::thread::ThreadResponse).
#[derive(Debug, Clone, Copy, PartialEq, Eq, Structural)]
pub enum ArchiveError {
    /// The remote could not be reached, or answered with a status that
    /// stands for neither success nor one of the expected outcomes.
    Transport,
    /// The remote answered, but the body was not well-formed.
    Decode,
    /// The resource asked for does not exist.
    NotFound,
    /// The relational store refused a post.
    Persistence,
    /// The blob store could not read or write.
    Storage,
    /// A configured board is not in the remote's directory, or a configured
    /// filter is no regular expression.
    Configuration,
}

impl ArchiveError {
    /// A short description for logs.
    pub fn message(&self) -> (text: &'static str)
        ensures
            text@ == match *self {
                ArchiveError::Transport => "transport error"@,
                ArchiveError::Decode => "malformed response"@,
                ArchiveError::NotFound => "not found"@,
                ArchiveError::Persistence => "persistence error"@,
                ArchiveError::Storage => "storage error"@,
                ArchiveError::Configuration => "configuration error"@,
            },
    {
        match self {
            ArchiveError::Transport => "transport error",
            ArchiveError::Decode => "malformed response",
            ArchiveError::NotFound => "not found",
            ArchiveError::Persistence => "persistence error",
            ArchiveError::Storage => "storage error",
            ArchiveError::Configuration => "configuration error",
        }
    }
}

} // verus!
