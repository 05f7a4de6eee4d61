//! The filter engine: which threads a board's filters let through.
//!
//! A thread is judged by its opening post. Each filter is tried on the
//! subject and, where the board asks for it, on the body with its markup
//! removed. The board keeps the thread where the outcome, whether any filter
//! matched, is the same as its `reverse_filter` flag: with the flag off the
//! filters name what is left out, with the flag on they name what is kept.

use crate::config::{regex_accepts, BoardConfig, CustomRegex};
use crate::post::Post;
use crate::thread::ThreadResponseInner;
use scraper::Html;
use vstd::prelude::*;
use vstd::string::StringExecFns;

verus! {

/// The nodes of the document that scraper parses `markup` into, in document
/// order: for a text node its text, for any other node `None`.
pub uninterp spec fn markup_nodes(markup: Seq<char>) -> Seq<Option<Seq<char>>>;

/// What a list of nodes holds, each text by its characters.
pub open spec fn node_texts(nodes: Seq<Option<String>>) -> Seq<Option<Seq<char>>> {
    nodes.map_values(
        |node: Option<String>|
            match node {
                Some(text) => Some(text@),
                None => None,
            },
    )
}

/// Parses `markup` with `scraper::Html::parse_document` and walks the tree
/// from its root through all descendants, which is document order. Each node
/// is handed out as its text where `Node::as_text` finds one, else as `None`.
/// The contract names the outcome, which the markup alone decides.
#[verifier::external_body]
fn parse_markup(markup: &str) -> (nodes: Vec<Option<String>>)
    ensures
        node_texts(nodes@) == markup_nodes(markup@),
{
    let document = Html::parse_document(markup);
    document.tree.root().descendants().map(
        |node| node.value().as_text().map(|text| text.to_string()),
    ).collect()
}

/// The texts of `nodes` one after the other, in the order of the nodes.
pub open spec fn joined_text(nodes: Seq<Option<Seq<char>>>) -> Seq<char>
    decreases nodes.len(),
{
    if nodes.len() == 0 {
        Seq::empty()
    } else {
        joined_text(nodes.drop_last()) + match nodes.last() {
            Some(text) => text,
            None => Seq::empty(),
        }
    }
}

/// The text of `markup` without its tags.
pub open spec fn plain_text(markup: Seq<char>) -> Seq<char> {
    joined_text(markup_nodes(markup))
}

/// The text that a list of parsed nodes shows: the text nodes joined in
/// order, everything else left out.
pub fn visible_text(nodes: &Vec<Option<String>>) -> (text: String)
    ensures
        text@ == joined_text(node_texts(nodes@)),
{
    let mut text = String::new();
    let mut i: usize = 0;
    while i < nodes.len()
        invariant
            i <= nodes@.len(),
            text@ == joined_text(node_texts(nodes@).take(i as int)),
        decreases nodes@.len() - i,
    {
        match &nodes[i] {
            Some(piece) => text.append(piece.as_str()),
            None => {},
        }
        proof {
            let upto = node_texts(nodes@).take(i + 1);
            assert(upto.drop_last() =~= node_texts(nodes@).take(i as int));
        }
        i += 1;
    }
    proof {
        assert(node_texts(nodes@).take(i as int) =~= node_texts(nodes@));
    }
    text
}

/// The text of `markup` without its tags: the text content in document
/// order.
pub fn strip_markup(markup: &str) -> (text: String)
    ensures
        text@ == plain_text(markup@),
{
    let nodes = parse_markup(markup);
    visible_text(&nodes)
}

/// Whether the filter `pattern` matches the subject or the body, as far as
/// either is there.
pub open spec fn filter_hits(
    pattern: Seq<char>,
    subject: Option<Seq<char>>,
    body: Option<Seq<char>>,
) -> bool {
    ||| subject is Some && regex_accepts(pattern, subject->0)
    ||| body is Some && regex_accepts(pattern, body->0)
}

/// Whether any of the filters matches.
pub open spec fn any_filter_hits(
    patterns: Seq<Seq<char>>,
    subject: Option<Seq<char>>,
    body: Option<Seq<char>>,
) -> bool {
    exists|i: int| 0 <= i < patterns.len() && #[trigger] filter_hits(patterns[i], subject, body)
}

/// Whether a thread is kept: always where no filters are configured or the
/// thread has no opening post, and else where the outcome of the filters is
/// the same as the `reverse` flag.
pub open spec fn spec_admission(filtered: bool, has_opening: bool, matched: bool, reverse: bool)
    -> bool {
    !filtered || !has_opening || (matched == reverse)
}

/// Whether a thread is kept, given whether the board has filters, whether
/// the thread has an opening post, whether any filter matched it, and the
/// board's `reverse_filter` flag.
pub fn admission(filtered: bool, has_opening: bool, matched: bool, reverse: bool) -> (kept: bool)
    ensures
        kept == spec_admission(filtered, has_opening, matched, reverse),
{
    if !filtered || !has_opening {
        true
    } else {
        !(matched ^ reverse)
    }
}

/// The characters of an optional string.
pub open spec fn opt_text(text: Option<String>) -> Option<Seq<char>> {
    match text {
        Some(t) => Some(t@),
        None => None,
    }
}

impl BoardConfig {
    /// The patterns of the filters, in order.
    pub open spec fn patterns(&self) -> Seq<Seq<char>> {
        self.filters@.map_values(|f: CustomRegex| f@)
    }

    /// The body of `post` as far as the filters see it: stripped of markup
    /// where the board filters on comments, and not at all where it does
    /// not.
    pub open spec fn filtered_body(&self, post: &Post) -> Option<Seq<char>> {
        if self.filter_comment && post.com is Some {
            Some(plain_text(post.com->0@))
        } else {
            None
        }
    }

    /// Whether any filter of the board matches `post`.
    pub open spec fn spec_matches(&self, post: &Post) -> bool {
        any_filter_hits(self.patterns(), opt_text(post.sub), self.filtered_body(post))
    }

    /// Whether the board keeps a thread with these posts.
    pub open spec fn spec_admits(&self, posts: Seq<Post>) -> bool {
        spec_admission(
            self.filters@.len() > 0,
            posts.len() > 0,
            posts.len() > 0 && self.spec_matches(&posts[0]),
            self.reverse_filter,
        )
    }

    /// Whether any filter of the board matches `post`: its subject, or its
    /// body where the board filters on comments. The filters are tried in
    /// order, up to the first that matches.
    pub fn matches(&self, post: &Post) -> (matched: bool)
        ensures
            matched == self.spec_matches(post),
    {
        let body: Option<String> = if self.filter_comment {
            match &post.com {
                Some(com) => Some(strip_markup(com.as_str())),
                None => None,
            }
        } else {
            None
        };
        let ghost subject = opt_text(post.sub);
        let ghost seen = self.filtered_body(post);
        let mut i: usize = 0;
        while i < self.filters.len()
            invariant
                i <= self.filters@.len(),
                subject == opt_text(post.sub),
                seen == opt_text(body),
                seen == self.filtered_body(post),
                forall|j: int| 0 <= j < i ==> !filter_hits(self.patterns()[j], subject, seen),
            decreases self.filters@.len() - i,
        {
            let filter = &self.filters[i];
            let on_subject = match &post.sub {
                Some(sub) => filter.is_match(sub.as_str()),
                None => false,
            };
            if on_subject {
                assert(filter_hits(self.patterns()[i as int], subject, seen));
                return true;
            }
            let on_body = match &body {
                Some(text) => filter.is_match(text.as_str()),
                None => false,
            };
            if on_body {
                assert(filter_hits(self.patterns()[i as int], subject, seen));
                return true;
            }
            i += 1;
        }
        false
    }

    /// Whether the board keeps `thread`.
    pub fn admits(&self, thread: &ThreadResponseInner) -> (kept: bool)
        ensures
            kept == self.spec_admits(thread.posts@),
    {
        if self.filters.len() == 0 || thread.posts.len() == 0 {
            return true;
        }
        let matched = self.matches(&thread.posts[0]);
        admission(true, true, matched, self.reverse_filter)
    }
}

/// A board without filters keeps every thread, whatever it holds, and
/// every board keeps a thread that has no opening post to judge it by.
pub proof fn lemma_unfiltered_board_admits_all(board: BoardConfig, posts: Seq<Post>)
    requires
        board.filters@.len() == 0 || posts.len() == 0,
    ensures
        board.spec_admits(posts),
{
}

/// Inverting the filters inverts the verdict on every thread that they are
/// tried on: with the flag on, the threads that match are kept, and with
/// the flag off, the threads that do not.
pub proof fn lemma_reverse_inverts(filtered: bool, has_opening: bool, matched: bool)
    requires
        filtered,
        has_opening,
    ensures
        spec_admission(filtered, has_opening, matched, true) != spec_admission(
            filtered,
            has_opening,
            matched,
            false,
        ),
        spec_admission(filtered, has_opening, matched, true) == matched,
        spec_admission(filtered, has_opening, matched, false) == !matched,
{
}

} // verus!
