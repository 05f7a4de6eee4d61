//! What the web front end decides: which threads a page of a board shows,
//! which status an error is answered with, and how archived text is shown.
//!
//! The front end itself, its routes, its queries and its templates, is not
//! part of the library.

use vstd::prelude::*;

verus! {

/// How many threads one page of a board shows.
pub const THREADS_PER_PAGE: i32 = 40;

/// The part of a board's threads that a request asks for.
#[derive(Debug)]
pub struct Pagination {
    before: Option<i64>,
    after: Option<i64>,
}

/// The threads that a page is drawn from. They are shown newest first,
/// [`THREADS_PER_PAGE`] of them.
#[derive(Debug, Clone, Copy, PartialEq, Eq, Structural)]
pub enum PageQuery {
    /// The threads with a number above this one.
    Above(i64),
    /// The threads with a number below this one.
    Below(i64),
    /// All threads.
    All,
}

impl Pagination {
    /// The thread number that the page lies before, if the request names
    /// one.
    pub closed spec fn before(&self) -> Option<i64> {
        self.before
    }

    /// The thread number that the page lies after, if the request names
    /// one.
    pub closed spec fn after(&self) -> Option<i64> {
        self.after
    }

    /// The threads that the page is drawn from: those above `before`, where
    /// the request names it; else those below `after`, where it names that;
    /// else all.
    pub open spec fn spec_query(&self) -> PageQuery {
        match self.before() {
            Some(before) => PageQuery::Above(before),
            None => match self.after() {
                Some(after) => PageQuery::Below(after),
                None => PageQuery::All,
            },
        }
    }

    /// The pagination that a request with these two parameters asks for.
    pub fn new(before: Option<i64>, after: Option<i64>) -> (pagination: Self)
        ensures
            pagination.before() == before,
            pagination.after() == after,
    {
        Pagination { before, after }
    }

    /// The threads that the page is drawn from.
    pub fn query(&self) -> (query: PageQuery)
        ensures
            query == self.spec_query(),
    {
        match self.before {
            Some(before) => PageQuery::Above(before),
            None => match self.after {
                Some(after) => PageQuery::Below(after),
                None => PageQuery::All,
            },
        }
    }
}

/// The first and the last of the thread numbers of a page, from which the
/// links to the neighbouring pages are made.
pub fn page_bounds(threads: &Vec<i64>) -> (bounds: (Option<i64>, Option<i64>))
    ensures
        threads@.len() == 0 ==> bounds == (None::<i64>, None::<i64>),
        threads@.len() > 0 ==> bounds == (Some(threads@[0]), Some(threads@.last())),
{
    if threads.len() == 0 {
        (None, None)
    } else {
        (Some(threads[0]), Some(threads[threads.len() - 1]))
    }
}

/// Why a request could not be served.
#[derive(Debug, Clone, Copy, PartialEq, Eq, Structural)]
pub enum AppError {
    /// Something failed while the request was served; `row_not_found` says
    /// whether it was the database that found no row.
    Anyhow { row_not_found: bool },
    /// The request is answered with this status.
    Status(u16),
}

impl AppError {
    /// The status that the error is answered with: 404 where the database
    /// found no row, 500 for any other failure, and else the status that
    /// the error names.
    pub open spec fn spec_status(&self) -> u16 {
        match *self {
            AppError::Anyhow { row_not_found } => if row_not_found {
                404
            } else {
                500
            },
            AppError::Status(status) => status,
        }
    }

    /// The status that the error is answered with.
    pub fn status(&self) -> (status: u16)
        ensures
            status == self.spec_status(),
    {
        match *self {
            AppError::Anyhow { row_not_found } => if row_not_found {
                404
            } else {
                500
            },
            AppError::Status(status) => status,
        }
    }
}

/// The error for a failure while a request was served.
pub fn any_error(row_not_found: bool) -> (error: AppError)
    ensures
        error == (AppError::Anyhow { row_not_found }),
{
    AppError::Anyhow { row_not_found }
}

/// Whether a thread of which so many posts are stored can be shown: a
/// thread without posts is not there.
pub fn thread_page(posts: usize) -> (shown: Result<(), AppError>)
    ensures
        shown == if posts == 0 {
            Err::<(), AppError>(AppError::Status(404))
        } else {
            Ok::<(), AppError>(())
        },
{
    if posts == 0 {
        Err(AppError::Status(404))
    } else {
        Ok(())
    }
}

/// A value as a template filter sees it.
#[derive(Debug)]
pub enum TemplateValue {
    Null,
    String(String),
    /// A value of any other kind.
    Other,
}

/// `html` with its character references replaced by the characters they
/// stand for, as html-escape decodes them.
pub uninterp spec fn decoded_entities(html: Seq<char>) -> Seq<char>;

/// Calls `html_escape::decode_html_entities` and copies what it returns
/// into a string. The contract names the outcome, which the text alone
/// decides.
#[verifier::external_body]
fn decode_entities(html: &str) -> (text: String)
    ensures
        text@ == decoded_entities(html@),
{
    html_escape::decode_html_entities(html).to_string()
}

/// What the filter makes of a value: nothing of null, the decoded text of a
/// string, and `None` of a value of another kind, which the filter refuses.
pub open spec fn spec_html_decode(value: TemplateValue) -> Option<Option<Seq<char>>> {
    match value {
        TemplateValue::Null => Some(None),
        TemplateValue::String(html) => Some(Some(decoded_entities(html@))),
        TemplateValue::Other => None,
    }
}

/// The template filter that shows archived text: a string comes back with
/// its character references decoded, null stays null, and a value of any
/// other kind is refused.
pub fn html_decode(value: &TemplateValue) -> (shown: Option<TemplateValue>)
    ensures
        match spec_html_decode(*value) {
            Some(Some(text)) => shown matches Some(TemplateValue::String(s)) && s@ == text,
            Some(None) => shown matches Some(TemplateValue::Null),
            None => shown is None,
        },
{
    match value {
        TemplateValue::Null => Some(TemplateValue::Null),
        TemplateValue::String(html) => Some(TemplateValue::String(decode_entities(html.as_str()))),
        TemplateValue::Other => None,
    }
}

/// Calls `mime_guess::from_path` on the key and prints what
/// `first_or_octet_stream` makes of the guess. Nothing is claimed of the
/// outcome: which part of a key counts as its extension is decided by the
/// path rules of the platform.
#[verifier::external_body]
fn guess_content_type(key: &str) -> (content_type: String) {
    mime_guess::from_path(key).first_or_octet_stream().to_string()
}

/// One header of an answer.
#[derive(Debug)]
pub struct Header {
    pub name: String,
    pub value: String,
}

/// The headers with which a blob of this content type is served: it is
/// shown in place, not offered for download.
pub fn blob_headers(content_type: String) -> (headers: Vec<Header>)
    ensures
        headers@.len() == 2,
        headers@[0].name@ == "content-disposition"@,
        headers@[0].value@ == "inline"@,
        headers@[1].name@ == "content-type"@,
        headers@[1].value == content_type,
{
    let mut headers: Vec<Header> = Vec::new();
    headers.push(Header { name: "content-disposition".to_owned(), value: "inline".to_owned() });
    headers.push(Header { name: "content-type".to_owned(), value: content_type });
    headers
}

/// The headers with which the blob stored under `key` is served. The
/// content type is guessed from the key.
pub fn cdn(key: &str) -> (headers: Vec<Header>)
    ensures
        headers@.len() == 2,
        headers@[0].name@ == "content-disposition"@,
        headers@[0].value@ == "inline"@,
        headers@[1].name@ == "content-type"@,
{
    blob_headers(guess_content_type(key))
}

} // verus!
