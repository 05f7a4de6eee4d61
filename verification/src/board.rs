//! Boards as the remote directory lists them.

use std::collections::HashMap;
use vstd::prelude::*;

verus! {

/// Posting cooldowns of a board, in seconds.
#[derive(Debug, Clone)]
pub struct Cooldowns {
    pub threads: i32,
    pub replies: i32,
    pub images: i32,
}

/// One board of the remote directory: its short code and its metadata.
#[derive(Debug, Clone)]
pub struct Board {
    /// The path segment the board lives under.
    pub board: String,
    /// The readable title.
    pub title: String,
    /// Whether the board is worksafe.
    pub ws_board: u8,
    /// Threads on one index page.
    pub per_page: i32,
    /// Number of index pages.
    pub pages: i32,
    /// Largest attachment, in KB, other than .webm.
    pub max_filesize: i32,
    /// Largest .webm attachment, in KB.
    pub max_webm_filesize: i32,
    /// Longest comment, in characters.
    pub max_comment_chars: i32,
    /// Longest .webm attachment, in seconds.
    pub max_webm_duration: i32,
    /// Replies after which a thread stops bumping.
    pub bump_limit: i32,
    /// Image replies after which further images are discarded.
    pub image_limit: i32,
    pub cooldowns: Cooldowns,
    /// Description for search engines.
    pub meta_description: String,
    pub spoilers: Option<u8>,
    pub custom_spoilers: Option<i32>,
    pub is_archived: Option<u8>,
    /// Flag codes mapped to flag names.
    pub board_flags: Option<HashMap<String, String>>,
    pub country_flags: Option<u8>,
    pub user_ids: Option<u8>,
    pub oekaki: Option<u8>,
    pub sjis_tags: Option<u8>,
    pub code_tags: Option<u8>,
    pub math_tags: Option<u8>,
    pub text_only: Option<u8>,
    pub forced_anon: Option<u8>,
    pub webm_audio: Option<u8>,
    pub require_subject: Option<i32>,
    pub min_image_width: Option<i32>,
    pub min_image_height: Option<i32>,
}

/// The remote board directory.
#[derive(Debug)]
pub struct BoardsResponse {
    pub boards: Vec<Board>,
}

/// Whether some board of `boards` has the code `name`.
pub open spec fn lists_board(boards: Seq<Board>, name: Seq<char>) -> bool {
    exists|i: int| 0 <= i < boards.len() && #[trigger] boards[i].board@ == name
}

impl BoardsResponse {
    /// The position of the first board whose code is `name`, if the
    /// directory lists one.
    pub fn position(&self, name: &str) -> (found: Option<usize>)
        ensures
            found is Some <==> lists_board(self.boards@, name@),
            found matches Some(i) ==> {
                &&& i < self.boards.len()
                &&& self.boards[i as int].board@ == name@
                &&& forall|j: int| 0 <= j < i ==> self.boards[j].board@ != name@
            },
    {
        let wanted = name.to_owned();
        let mut i: usize = 0;
        while i < self.boards.len()
            invariant
                i <= self.boards.len(),
                wanted@ == name@,
                forall|j: int| 0 <= j < i ==> self.boards[j].board@ != name@,
            decreases self.boards.len() - i,
        {
            if self.boards[i].board == wanted {
                return Some(i);
            }
            i += 1;
        }
        None
    }
}

} // verus!
