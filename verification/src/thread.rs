//! Threads as the remote lists and serves them.

use crate::post::Post;
use vstd::prelude::*;

verus! {

/// What a request for one thread came to.
///
/// A thread that did not change since it was last fetched, and a thread the
/// remote has pruned, are ordinary outcomes and no errors.
#[derive(Debug)]
pub enum ThreadResponse {
    /// The thread, with all its posts.
    Thread(ThreadResponseInner),
    /// The remote holds nothing newer than what was fetched before.
    NotModified,
    /// The remote no longer serves the thread.
    NotFound,
}

/// The posts of a thread, the opening post first.
#[derive(Debug)]
pub struct ThreadResponseInner {
    pub posts: Vec<Post>,
}

/// One thread as an index page lists it.
#[derive(Debug)]
pub struct ThreadEntry {
    pub no: i64,
    pub last_modified: i64,
    pub replies: i64,
}

/// One index page of a board.
#[derive(Debug)]
pub struct ThreadListPage {
    pub page: i64,
    pub threads: Vec<ThreadEntry>,
}

/// All index pages of a board, as the remote sends them in one document.
#[derive(Debug)]
pub struct ThreadPageListResponse(pub Vec<ThreadListPage>);

/// The thread numbers of `pages[from..]`, page after page, each page in its
/// listed order.
pub open spec fn listed_threads(pages: Seq<ThreadListPage>, from: int) -> Seq<i64>
    decreases pages.len() - from,
{
    if 0 <= from < pages.len() {
        pages[from].threads@.map_values(|t: ThreadEntry| t.no) + listed_threads(pages, from + 1)
    } else {
        Seq::empty()
    }
}

impl ThreadPageListResponse {
    /// The numbers of all listed threads in the order in which they are to
    /// be fetched: page by page, and within a page as listed.
    pub fn thread_numbers(&self) -> (numbers: Vec<i64>)
        ensures
            numbers@ == listed_threads(self.0@, 0),
    {
        let mut numbers: Vec<i64> = Vec::new();
        let mut p: usize = self.0.len();
        while p > 0
            invariant
                p <= self.0.len(),
                numbers@ == listed_threads(self.0@, p as int),
            decreases p,
        {
            p -= 1;
            let page = &self.0[p];
            let mut front: Vec<i64> = Vec::new();
            let mut t: usize = 0;
            while t < page.threads.len()
                invariant
                    t <= page.threads.len(),
                    front@ == page.threads@.take(t as int).map_values(|e: ThreadEntry| e.no),
                decreases page.threads.len() - t,
            {
                front.push(page.threads[t].no);
                t += 1;
            }
            front.append(&mut numbers);
            numbers = front;
        }
        numbers
    }
}

} // verus!
