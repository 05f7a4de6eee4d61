//! The post repository: what an upsert does to the stored posts.
//!
//! Posts are stored under their number. The first time a number is seen the
//! post is stored as it is. Every later time only the fields that the remote
//! changes over the life of a thread are taken over: the stored text, names
//! and attachment descriptor stay as they were first written.

use crate::post::Post;
use std::collections::HashMap;
use vstd::prelude::*;

verus! {

broadcast use vstd::std_specs::hash::group_hash_axioms;

/// The stored post after `incoming` was seen again: `stored`, with the
/// deletion flag, the reply and image counts, the two limit flags, the
/// poster count, the archived flag and the archival time of `incoming`.
pub open spec fn refreshed(stored: Post, incoming: Post) -> Post {
    Post {
        filedeleted: incoming.filedeleted,
        replies: incoming.replies,
        images: incoming.images,
        bumplimit: incoming.bumplimit,
        imagelimit: incoming.imagelimit,
        unique_ips: incoming.unique_ips,
        archived: incoming.archived,
        archived_on: incoming.archived_on,
        ..stored
    }
}

/// The stored posts after `post` was upserted.
pub open spec fn spec_upsert(rows: Map<i64, Post>, post: Post) -> Map<i64, Post> {
    if rows.contains_key(post.no) {
        rows.insert(post.no, refreshed(rows[post.no], post))
    } else {
        rows.insert(post.no, post)
    }
}

/// `post` as it is stored for posts of `board`: the same in all but the
/// board it is filed under.
pub open spec fn filed(post: Post, stored: Post, board: Seq<char>) -> bool {
    &&& stored.board@ == board
    &&& stored == Post { board: stored.board, ..post }
}

impl Post {
    /// This post, filed under `board`.
    pub fn filed_under(self, board: &str) -> (stored: Post)
        ensures
            filed(self, stored, board@),
    {
        Post { board: board.to_owned(), ..self }
    }
}

/// The stored posts, each under its number.
#[derive(Debug)]
pub struct PostTable {
    rows: HashMap<i64, Post>,
}

impl PostTable {
    /// The stored posts, each under its number.
    pub closed spec fn view(&self) -> Map<i64, Post> {
        self.rows@
    }

    /// A table without posts.
    pub fn new() -> (table: Self)
        ensures
            table@ == Map::<i64, Post>::empty(),
    {
        PostTable { rows: HashMap::new() }
    }

    /// The number of stored posts.
    pub fn len(&self) -> (n: usize)
        ensures
            n == self@.len(),
            self@.dom().finite(),
    {
        self.rows.len()
    }

    /// The post stored under `no`.
    pub fn get(&self, no: i64) -> (row: Option<&Post>)
        ensures
            row is Some <==> self@.contains_key(no),
            row matches Some(post) ==> *post == self@[no],
    {
        self.rows.get(&no)
    }

    /// Stores `post` under its number, or refreshes what is stored there.
    ///
    /// A post whose number is new is stored whole. Where the number is
    /// taken, the stored post keeps all its fields but the eight that
    /// [`refreshed`] names, which are taken from `post`.
    pub fn upsert(&mut self, post: Post)
        ensures
            final(self)@ == spec_upsert(old(self)@, post),
    {
        let no = post.no;
        match self.rows.remove(&no) {
            Some(stored) => {
                let row = Post {
                    filedeleted: post.filedeleted,
                    replies: post.replies,
                    images: post.images,
                    bumplimit: post.bumplimit,
                    imagelimit: post.imagelimit,
                    unique_ips: post.unique_ips,
                    archived: post.archived,
                    archived_on: post.archived_on,
                    ..stored
                };
                self.rows.insert(no, row);
            },
            None => {
                self.rows.insert(no, post);
            },
        }
    }

    /// Stores `post` as a post of `board`, or refreshes what is stored
    /// under its number.
    pub fn save_post(&mut self, post: Post, board: &str)
        ensures
            exists|stored: Post| #[trigger]
                filed(post, stored, board@) && final(self)@ == spec_upsert(old(self)@, stored),
    {
        let stored = post.filed_under(board);
        self.upsert(stored);
    }
}

/// Upserting never removes a post, and adds at most the one under the
/// number of the upserted post.
pub proof fn lemma_upsert_domain(rows: Map<i64, Post>, post: Post)
    ensures
        spec_upsert(rows, post).dom() == rows.dom().insert(post.no),
        forall|no: i64| no != post.no && rows.contains_key(no) ==> spec_upsert(rows, post)[no]
            == rows[no],
{
}

/// Upserting a number twice leaves exactly one post under it, and as many
/// posts in all as one upsert does. The eight refreshed fields are those of
/// the second post; every other field is as the first upsert left it, so
/// that of the first post where the number was new.
pub proof fn lemma_upsert_twice(rows: Map<i64, Post>, first: Post, second: Post)
    requires
        first.no == second.no,
    ensures
        spec_upsert(spec_upsert(rows, first), second).dom() == spec_upsert(rows, first).dom(),
        spec_upsert(spec_upsert(rows, first), second)[first.no] == refreshed(
            spec_upsert(rows, first)[first.no],
            second,
        ),
        !rows.contains_key(first.no) ==> spec_upsert(spec_upsert(rows, first), second)[first.no]
            == refreshed(first, second),
        rows.dom().finite() ==> spec_upsert(spec_upsert(rows, first), second).len() == spec_upsert(
            rows,
            first,
        ).len(),
{
    let once = spec_upsert(rows, first);
    let twice = spec_upsert(once, second);
}

/// Upserting the same post again changes nothing.
pub proof fn lemma_upsert_idempotent(rows: Map<i64, Post>, post: Post)
    ensures
        spec_upsert(spec_upsert(rows, post), post) == spec_upsert(rows, post),
{
    let once = spec_upsert(rows, post);
}

} // verus!
