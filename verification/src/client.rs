//! The wire client: which requests the archiver makes, and what their
//! answers mean.
//!
//! The client sends nothing itself. It builds each request, keeps the ledger
//! of successful thread fetches from which conditional requests are made,
//! and classifies the answers that the caller hands back.

use crate::error::ArchiveError;
use crate::text::{decimal, push_decimal};
use crate::thread::{ThreadResponse, ThreadResponseInner};
use chrono::DateTime;
use std::collections::HashMap;
use vstd::prelude::*;
use vstd::string::StringExecFns;

verus! {

broadcast use vstd::std_specs::hash::group_hash_axioms;

/// The text that chrono prints for the instant `secs` seconds after the
/// UNIX epoch, in UTC, under the pattern `%a, %d %b %Y %H:%M:%S GMT`; `None`
/// where chrono has no date for that instant.
pub uninterp spec fn http_date(secs: i64) -> Option<Seq<char>>;

/// Calls `chrono::DateTime::from_timestamp` with no nanoseconds and, where
/// that yields a date, `DateTime::format` with the pattern of an HTTP date
/// and `to_string` on what it returns. The contract names the outcome: it is
/// decided by `secs` alone, since the time zone is fixed to UTC and the
/// pattern holds no locale-dependent item.
#[verifier::external_body]
fn format_http_date(secs: i64) -> (text: Option<String>)
    ensures
        text is Some <==> http_date(secs) is Some,
        text matches Some(t) ==> t@ == http_date(secs)->0,
{
    match DateTime::from_timestamp(secs, 0) {
        Some(at) => Some(at.format("%a, %d %b %Y %H:%M:%S GMT").to_string()),
        None => None,
    }
}

/// A request for the caller to send with the method GET.
#[derive(Debug)]
pub struct Request {
    /// Where to send it.
    pub uri: String,
    /// The value of the `If-Modified-Since` header, if the request is
    /// conditional.
    pub if_modified_since: Option<String>,
}

/// A request, as contracts speak of it.
pub struct RequestView {
    /// The address.
    pub uri: Seq<char>,
    /// The time in the `If-Modified-Since` header, if there is one.
    pub condition: Option<Seq<char>>,
}

impl Request {
    /// The address and the condition of the request.
    pub open spec fn view(&self) -> RequestView {
        RequestView {
            uri: self.uri@,
            condition: match self.if_modified_since {
                Some(date) => Some(date@),
                None => None,
            },
        }
    }
}

/// The request for `uri` that is bound to no condition.
pub open spec fn unconditional(uri: Seq<char>) -> RequestView {
    RequestView { uri, condition: None }
}

/// How the status of an answer is read.
#[derive(Debug, Clone, Copy, PartialEq, Eq, Structural)]
pub enum StatusClass {
    /// 2xx: the body holds what was asked for.
    Success,
    /// 304: nothing changed since the time the request named.
    NotModified,
    /// 404: the remote does not have it.
    NotFound,
    /// Anything else.
    Failure,
}

/// The class of an HTTP status.
pub open spec fn spec_classify(status: u16) -> StatusClass {
    if status == 304 {
        StatusClass::NotModified
    } else if status == 404 {
        StatusClass::NotFound
    } else if 200 <= status < 300 {
        StatusClass::Success
    } else {
        StatusClass::Failure
    }
}

/// The class of an HTTP status.
pub fn classify(status: u16) -> (class: StatusClass)
    ensures
        class == spec_classify(status),
{
    if status == 304 {
        StatusClass::NotModified
    } else if status == 404 {
        StatusClass::NotFound
    } else if 200 <= status && status < 300 {
        StatusClass::Success
    } else {
        StatusClass::Failure
    }
}

/// The address of the board directory.
pub open spec fn board_list_uri() -> Seq<char> {
    "https://a.4cdn.org/boards.json"@
}

/// The address of the index pages of `board`.
pub open spec fn thread_page_list_uri(board: Seq<char>) -> Seq<char> {
    "https://a.4cdn.org/"@ + board + "/threads.json"@
}

/// The address of thread `thread_no` of `board`.
pub open spec fn thread_uri(board: Seq<char>, thread_no: int) -> Seq<char> {
    "https://a.4cdn.org/"@ + board + "/thread/"@ + decimal(thread_no) + ".json"@
}

/// The address of the attachment uploaded at `tim` with extension `ext`.
pub open spec fn attachment_uri(board: Seq<char>, tim: int, ext: Seq<char>) -> Seq<char> {
    "https://i.4cdn.org/"@ + board + "/"@ + decimal(tim) + ext
}

/// The address of the thumbnail of the attachment uploaded at `tim`.
pub open spec fn thumbnail_uri(board: Seq<char>, tim: int) -> Seq<char> {
    "https://i.4cdn.org/"@ + board + "/"@ + decimal(tim) + "s.jpg"@
}

/// The condition under which thread `thread_no` is asked for, given the
/// ledger: the HTTP date of its last successful fetch, if there was one.
pub open spec fn spec_condition(ledger: Map<i64, i64>, thread_no: i64) -> Option<Seq<char>> {
    if ledger.contains_key(thread_no) {
        http_date(ledger[thread_no])
    } else {
        None
    }
}

/// What the answer to a thread request means: the class of an answer that
/// is an outcome, or the error that it stands for. `decoded` says whether
/// the body was read as a thread.
pub open spec fn spec_thread_outcome(status: u16, decoded: bool) -> Result<
    StatusClass,
    ArchiveError,
> {
    match spec_classify(status) {
        StatusClass::NotModified => Ok(StatusClass::NotModified),
        StatusClass::NotFound => Ok(StatusClass::NotFound),
        StatusClass::Success => if decoded {
            Ok(StatusClass::Success)
        } else {
            Err(ArchiveError::Decode)
        },
        StatusClass::Failure => Err(ArchiveError::Transport),
    }
}

/// The ledger after the answer to a request for thread `thread_no` arrived
/// at time `now`: only a thread that was served and decoded is recorded.
pub open spec fn spec_ledger_after(
    ledger: Map<i64, i64>,
    thread_no: i64,
    status: u16,
    decoded: bool,
    now: i64,
) -> Map<i64, i64> {
    if spec_thread_outcome(status, decoded) == Ok::<StatusClass, ArchiveError>(
        StatusClass::Success,
    ) {
        ledger.insert(thread_no, now)
    } else {
        ledger
    }
}

/// The wire client.
#[derive(Debug)]
pub struct Client {
    /// For each thread, when it was last fetched with success, in seconds
    /// since the UNIX epoch.
    cache: HashMap<i64, i64>,
}

impl Client {
    /// The ledger as a map from thread number to the time of the last
    /// successful fetch.
    pub closed spec fn ledger(&self) -> Map<i64, i64> {
        self.cache@
    }

    /// A client that has fetched nothing yet.
    #[must_use]
    pub fn new() -> (client: Self)
        ensures
            client.ledger() == Map::<i64, i64>::empty(),
    {
        Client { cache: HashMap::new() }
    }

    /// When thread `thread_no` was last fetched with success.
    pub fn last_fetched(&self, thread_no: i64) -> (at: Option<i64>)
        ensures
            at == if self.ledger().contains_key(thread_no) {
                Some(self.ledger()[thread_no])
            } else {
                None
            },
    {
        match self.cache.get(&thread_no) {
            Some(at) => Some(*at),
            None => None,
        }
    }

    /// The request for the board directory.
    pub fn get_board_list(&self) -> (request: Request)
        ensures
            request@ == unconditional(board_list_uri()),
    {
        Request { uri: "https://a.4cdn.org/boards.json".to_owned(), if_modified_since: None }
    }

    /// The request for all index pages of `board`.
    pub fn get_thread_page_list(&self, board: &str) -> (request: Request)
        ensures
            request@ == unconditional(thread_page_list_uri(board@)),
    {
        let mut uri = "https://a.4cdn.org/".to_owned();
        uri.append(board);
        uri.append("/threads.json");
        Request { uri, if_modified_since: None }
    }

    /// The request for thread `thread_no` of `board`. It is conditional on
    /// the time of the last successful fetch of that thread, where the
    /// ledger holds one.
    pub fn get_thread(&self, board: &str, thread_no: i64) -> (request: Request)
        ensures
            request@ == (RequestView {
                uri: thread_uri(board@, thread_no as int),
                condition: spec_condition(self.ledger(), thread_no),
            }),
    {
        let mut uri = "https://a.4cdn.org/".to_owned();
        uri.append(board);
        uri.append("/thread/");
        push_decimal(&mut uri, thread_no);
        uri.append(".json");
        let if_modified_since = match self.cache.get(&thread_no) {
            Some(at) => format_http_date(*at),
            None => None,
        };
        Request { uri, if_modified_since }
    }

    /// The request for the bytes of an attachment.
    pub fn get_attachment_body(&self, board: &str, tim: i64, ext: &str) -> (request: Request)
        ensures
            request@ == unconditional(attachment_uri(board@, tim as int, ext@)),
    {
        let mut uri = "https://i.4cdn.org/".to_owned();
        uri.append(board);
        uri.append("/");
        push_decimal(&mut uri, tim);
        uri.append(ext);
        Request { uri, if_modified_since: None }
    }

    /// The request for the bytes of a thumbnail.
    pub fn get_thumbnail_body(&self, board: &str, tim: i64) -> (request: Request)
        ensures
            request@ == unconditional(thumbnail_uri(board@, tim as int)),
    {
        let mut uri = "https://i.4cdn.org/".to_owned();
        uri.append(board);
        uri.append("/");
        push_decimal(&mut uri, tim);
        uri.append("s.jpg");
        Request { uri, if_modified_since: None }
    }

    /// Reads the answer to a request for thread `thread_no`: its status,
    /// its decoded body (`None` where the body was read but is not a
    /// thread), and the time `now` at which it arrived.
    ///
    /// Status 304 is `NotModified` and 404 is `NotFound`. A 2xx status with a
    /// thread in the body is that thread, and the fetch is entered in the
    /// ledger under `now`; nothing else changes the ledger. A 2xx status
    /// without one is a decode error, any other status a transport error.
    pub fn thread_response(
        &mut self,
        thread_no: i64,
        status: u16,
        body: Option<ThreadResponseInner>,
        now: i64,
    ) -> (response: Result<ThreadResponse, ArchiveError>)
        ensures
            final(self).ledger() == spec_ledger_after(
                old(self).ledger(),
                thread_no,
                status,
                body is Some,
                now,
            ),
            match spec_thread_outcome(status, body is Some) {
                Ok(StatusClass::Success) => response == Ok::<ThreadResponse, ArchiveError>(
                    ThreadResponse::Thread(body->0),
                ),
                Ok(StatusClass::NotModified) => response == Ok::<ThreadResponse, ArchiveError>(
                    ThreadResponse::NotModified,
                ),
                Ok(_) => response == Ok::<ThreadResponse, ArchiveError>(ThreadResponse::NotFound),
                Err(e) => response == Err::<ThreadResponse, ArchiveError>(e),
            },
    {
        match classify(status) {
            StatusClass::NotModified => Ok(ThreadResponse::NotModified),
            StatusClass::NotFound => Ok(ThreadResponse::NotFound),
            StatusClass::Success => match body {
                Some(thread) => {
                    self.cache.insert(thread_no, now);
                    Ok(ThreadResponse::Thread(thread))
                },
                None => Err(ArchiveError::Decode),
            },
            StatusClass::Failure => Err(ArchiveError::Transport),
        }
    }
}

/// Reads the answer to a request for the bytes of an attachment or a
/// thumbnail: a 2xx status yields the body, 404 is `NotFound`, any other
/// status a transport error.
pub fn body_response(status: u16, body: Vec<u8>) -> (bytes: Result<Vec<u8>, ArchiveError>)
    ensures
        bytes == match spec_classify(status) {
            StatusClass::Success => Ok::<Vec<u8>, ArchiveError>(body),
            StatusClass::NotFound => Err::<Vec<u8>, ArchiveError>(ArchiveError::NotFound),
            _ => Err::<Vec<u8>, ArchiveError>(ArchiveError::Transport),
        },
{
    match classify(status) {
        StatusClass::Success => Ok(body),
        StatusClass::NotFound => Err(ArchiveError::NotFound),
        _ => Err(ArchiveError::Transport),
    }
}

/// A thread that was fetched with success at `now` is next asked for on the
/// condition that it changed since `now`; an answer of 304 to that request
/// is `NotModified`, an answer of 404 is `NotFound`, neither is an error, and
/// neither touches the ledger.
pub proof fn lemma_conditional_fetch(ledger: Map<i64, i64>, thread_no: i64, now: i64)
    ensures
        spec_condition(spec_ledger_after(ledger, thread_no, 200, true, now), thread_no)
            == http_date(now),
        forall|decoded: bool|
            #![auto]
            spec_thread_outcome(304, decoded) == Ok::<StatusClass, ArchiveError>(
                StatusClass::NotModified,
            ),
        forall|decoded: bool|
            #![auto]
            spec_thread_outcome(404, decoded) == Ok::<StatusClass, ArchiveError>(
                StatusClass::NotFound,
            ),
        forall|l: Map<i64, i64>, decoded: bool, at: i64|
            #![auto]
            spec_ledger_after(l, thread_no, 304, decoded, at) == l && spec_ledger_after(
                l,
                thread_no,
                404,
                decoded,
                at,
            ) == l,
{
}

} // verus!
