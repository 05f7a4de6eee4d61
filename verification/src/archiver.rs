//! The archival engine: the scheduler that walks the configured boards
//! forever and decides, step by step, what is to be done next.
//!
//! The engine does no I/O. Each call of [`Archiver::step`] takes what the
//! last action came to and answers with the next action: a request to send,
//! a post to archive, a wait for a free permit, a pause, or the end of the
//! run. The caller carries the action out and reports back.
//!
//! One board is archived at a time. Its directory entry is looked up, its
//! index pages are listed, which the remote sends as one document, and each
//! listed thread is fetched in turn, page by page, on the condition that it
//! changed since it was last fetched. A thread that is
//! unchanged, gone, or turned away by the board's filters costs nothing
//! more. Of a thread that is kept every post becomes a unit of work, handed
//! out in the listed order and only while a permit is free. When the threads
//! of the board are through, the engine pauses and turns to the next board,
//! the first one again after the last.

use crate::board::{lists_board, BoardsResponse};
use crate::client::{
    attachment_uri, board_list_uri, spec_condition, spec_ledger_after, spec_thread_outcome,
    thread_page_list_uri, thread_uri, thumbnail_uri, unconditional, Client, Request, RequestView,
    StatusClass,
};
use crate::config::{BoardConfig, Config};
use crate::error::ArchiveError;
use crate::permits::PermitPool;
use crate::post::{Post, PostAttachment};
use crate::text::{decimal, push_decimal};
use crate::thread::{listed_threads, ThreadPageListResponse, ThreadResponse, ThreadResponseInner};
use vstd::prelude::*;
use vstd::string::StringExecFns;

verus! {

/// How many posts are archived at once, over all boards and threads.
pub const PERMITS: usize = 4;

/// How long the engine pauses when a board is through, in seconds.
pub const PAUSE_SECONDS: u64 = 600;

/// A blob to save: the key it is stored under, in the namespace of its
/// board, and the request that fetches its bytes.
#[derive(Debug)]
pub struct BlobJob {
    pub key: String,
    pub request: Request,
}

/// A blob to save, as contracts speak of it.
pub struct BlobJobView {
    pub key: Seq<char>,
    pub request: RequestView,
}

impl BlobJob {
    /// The key and the request of the job.
    pub open spec fn view(&self) -> BlobJobView {
        BlobJobView { key: self.key@, request: self.request@ }
    }
}

/// The key under which an attachment is stored: its upload id and its
/// extension.
pub open spec fn attachment_key(attachment: PostAttachment) -> Seq<char> {
    decimal(attachment.tim as int) + attachment.ext@
}

/// The key under which the thumbnail of an attachment is stored: its upload
/// id and the thumbnail suffix.
pub open spec fn thumbnail_key(attachment: PostAttachment) -> Seq<char> {
    decimal(attachment.tim as int) + "s.jpg"@
}

/// The job that saves the attachment itself. Blobs never change, so they
/// are fetched without a condition.
pub open spec fn attachment_job(board: Seq<char>, attachment: PostAttachment) -> BlobJobView {
    BlobJobView {
        key: attachment_key(attachment),
        request: unconditional(attachment_uri(board, attachment.tim as int, attachment.ext@)),
    }
}

/// The job that saves the thumbnail of the attachment.
pub open spec fn thumbnail_job(board: Seq<char>, attachment: PostAttachment) -> BlobJobView {
    BlobJobView {
        key: thumbnail_key(attachment),
        request: unconditional(thumbnail_uri(board, attachment.tim as int)),
    }
}

/// The blobs to save for `post`, in order: none where the post has no
/// attachment; else the attachment, where the board keeps full media, and
/// then always the thumbnail.
pub open spec fn spec_blob_jobs(post: Post, board: Seq<char>, full_media: bool) -> Seq<
    BlobJobView,
> {
    match post.spec_attachment() {
        Some(attachment) => if full_media {
            seq![attachment_job(board, attachment), thumbnail_job(board, attachment)]
        } else {
            seq![thumbnail_job(board, attachment)]
        },
        None => Seq::empty(),
    }
}

/// What a list of jobs holds.
pub open spec fn job_views(jobs: Seq<BlobJob>) -> Seq<BlobJobView> {
    jobs.map_values(|job: BlobJob| job@)
}

/// One post to archive: the post, the board it belongs to, and the blobs to
/// save for it once the post itself is stored.
#[derive(Debug)]
pub struct WorkUnit {
    pub post: Post,
    pub board: String,
    pub blobs: Vec<BlobJob>,
}

/// A unit of work, as contracts speak of it.
pub struct WorkUnitView {
    pub post: Post,
    pub board: Seq<char>,
    pub blobs: Seq<BlobJobView>,
}

impl WorkUnit {
    /// The post, the board and the jobs of the unit.
    pub open spec fn view(&self) -> WorkUnitView {
        WorkUnitView { post: self.post, board: self.board@, blobs: job_views(self.blobs@) }
    }
}

/// The unit of work for `post` of `board`.
pub open spec fn spec_unit(post: Post, board: Seq<char>, full_media: bool) -> WorkUnitView {
    WorkUnitView { post, board, blobs: spec_blob_jobs(post, board, full_media) }
}

/// What the caller reports to the engine.
#[derive(Debug)]
pub enum Event {
    /// The last action is done and has nothing to report: a unit was
    /// started, a permit came free, the pause is over. Also the first event
    /// of a run.
    Continue,
    /// The board directory arrived.
    Boards(BoardsResponse),
    /// The index pages of the board arrived.
    ThreadPages(ThreadPageListResponse),
    /// The answer to the thread request arrived at time `now`, with this
    /// status and, where the body was read as a thread, with its posts.
    Thread { status: u16, body: Option<ThreadResponseInner>, now: i64 },
    /// The last request failed.
    Failed(ArchiveError),
}

/// What the engine asks of the caller.
#[derive(Debug)]
pub enum Action {
    /// Fetch the board directory and report `Boards`.
    FetchBoards { request: Request },
    /// Fetch the index pages of `board` and report `ThreadPages`.
    FetchThreadPages { board: String, request: Request },
    /// Fetch a thread and report `Thread`.
    FetchThread { board: String, thread_no: i64, request: Request },
    /// Start archiving a post, which now holds a permit, and report
    /// `Continue` at once. When the unit ends, however it ends, call
    /// [`Archiver::unit_finished`].
    Dispatch(WorkUnit),
    /// All permits are out: wait until a unit ends, call
    /// [`Archiver::unit_finished`], and report `Continue`.
    AwaitPermit,
    /// Pause for so many seconds and report `Continue`.
    Sleep { seconds: u64 },
    /// The run is over, with this outcome.
    Stop(Result<(), ArchiveError>),
}

/// An action, as contracts speak of it.
pub enum ActionView {
    FetchBoards { request: RequestView },
    FetchThreadPages { board: Seq<char>, request: RequestView },
    FetchThread { board: Seq<char>, thread_no: i64, request: RequestView },
    Dispatch(WorkUnitView),
    AwaitPermit,
    Sleep { seconds: u64 },
    Stop(Result<(), ArchiveError>),
}

impl Action {
    /// What the action asks for.
    pub open spec fn view(&self) -> ActionView {
        match *self {
            Action::FetchBoards { request } => ActionView::FetchBoards { request: request@ },
            Action::FetchThreadPages { board, request } => ActionView::FetchThreadPages {
                board: board@,
                request: request@,
            },
            Action::FetchThread { board, thread_no, request } => ActionView::FetchThread {
                board: board@,
                thread_no,
                request: request@,
            },
            Action::Dispatch(unit) => ActionView::Dispatch(unit@),
            Action::AwaitPermit => ActionView::AwaitPermit,
            Action::Sleep { seconds } => ActionView::Sleep { seconds },
            Action::Stop(outcome) => ActionView::Stop(outcome),
        }
    }
}

/// What the engine made of the answer to a thread request.
#[derive(Debug, Clone, Copy, PartialEq, Eq, Structural)]
pub enum Verdict {
    /// The thread did not change since it was last fetched.
    NotModified,
    /// The remote no longer serves the thread.
    NotFound,
    /// The thread was served, and the filters of its board turned it away.
    Skipped,
    /// The thread was served and is kept: its posts are handed out.
    Kept,
}

/// The verdict on an answer that is no error, given whether the board
/// keeps the thread.
pub open spec fn spec_verdict(class: StatusClass, admitted: bool) -> Verdict {
    match class {
        StatusClass::NotModified => Verdict::NotModified,
        StatusClass::Success => if admitted {
            Verdict::Kept
        } else {
            Verdict::Skipped
        },
        _ => Verdict::NotFound,
    }
}

/// Where the engine stands.
#[derive(Debug, Clone, Copy, PartialEq, Eq, Structural)]
pub enum Phase {
    /// The board directory is awaited, to find the current board in it.
    SelectingBoard,
    /// The index pages of the current board are awaited.
    ListingThreads,
    /// The current thread is awaited.
    FetchingThread,
    /// The posts of the current thread are handed out.
    Dispatching,
    /// The board is through; the pause runs.
    Sleeping,
    /// The run is over.
    Stopped,
}

/// The state of the engine, as contracts speak of it.
pub struct ArchiverView {
    /// The names of the configured boards.
    pub names: Seq<Seq<char>>,
    /// Their settings.
    pub boards: Seq<BoardConfig>,
    /// The ledger of the wire client.
    pub ledger: Map<i64, i64>,
    /// The size of the permit pool.
    pub capacity: nat,
    /// The permits that are out.
    pub in_use: nat,
    pub phase: Phase,
    /// How the run ended, once it is over.
    pub outcome: Result<(), ArchiveError>,
    /// The position of the current board.
    pub cursor: int,
    /// The threads listed for the current board, in the order in which they
    /// are fetched.
    pub threads: Seq<i64>,
    /// The position of the current thread.
    pub next_thread: int,
    /// The posts of the current thread that are still to be handed out.
    pub posts: Seq<Post>,
    /// What was made of the last thread that was answered without error.
    pub verdict: Option<Verdict>,
}

impl ArchiverView {
    /// What holds of every state that the engine reaches.
    pub open spec fn wf(self) -> bool {
        &&& self.names.len() == self.boards.len()
        &&& self.in_use <= self.capacity
        &&& 0 <= self.next_thread <= self.threads.len()
        &&& self.phase != Phase::Stopped ==> 0 <= self.cursor < self.names.len()
        &&& (self.phase == Phase::FetchingThread || self.phase == Phase::Dispatching)
            ==> self.next_thread < self.threads.len()
        &&& self.phase != Phase::Dispatching ==> self.posts.len() == 0
    }

    /// The state with the run ended.
    pub open spec fn stopped(self, outcome: Result<(), ArchiveError>) -> ArchiverView {
        ArchiverView { phase: Phase::Stopped, outcome, posts: Seq::empty(), ..self }
    }

    /// The state once the position in the thread list is settled: the
    /// thread there is fetched next, or the board is through.
    pub open spec fn settled(self) -> ArchiverView {
        if self.next_thread < self.threads.len() {
            ArchiverView { phase: Phase::FetchingThread, posts: Seq::empty(), ..self }
        } else {
            ArchiverView { phase: Phase::Sleeping, posts: Seq::empty(), ..self }
        }
    }

    /// The state with the current thread done with.
    pub open spec fn thread_done(self) -> ArchiverView {
        ArchiverView { next_thread: self.next_thread + 1, ..self }.settled()
    }

    /// The state after `event`, before the next action is chosen. An event
    /// that the phase does not await changes nothing.
    pub open spec fn apply(self, event: Event) -> ArchiverView {
        match (self.phase, event) {
            (Phase::SelectingBoard, Event::Boards(directory)) => {
                if lists_board(directory.boards@, self.names[self.cursor]) {
                    ArchiverView { phase: Phase::ListingThreads, ..self }
                } else {
                    self.stopped(Err(ArchiveError::Configuration))
                }
            },
            (Phase::ListingThreads, Event::ThreadPages(pages)) => {
                ArchiverView { threads: listed_threads(pages.0@, 0), next_thread: 0, ..self }.settled()
            },
            (Phase::FetchingThread, Event::Thread { status, body, now }) => {
                let seen = ArchiverView {
                    ledger: spec_ledger_after(
                        self.ledger,
                        self.threads[self.next_thread],
                        status,
                        body is Some,
                        now,
                    ),
                    ..self
                };
                match spec_thread_outcome(status, body is Some) {
                    Err(e) => seen.stopped(Err(e)),
                    Ok(StatusClass::Success) => {
                        if self.boards[self.cursor].spec_admits(body->0.posts@) {
                            ArchiverView {
                                phase: Phase::Dispatching,
                                posts: body->0.posts@,
                                verdict: Some(Verdict::Kept),
                                ..seen
                            }
                        } else {
                            ArchiverView { verdict: Some(Verdict::Skipped), ..seen }.thread_done()
                        }
                    },
                    Ok(class) => ArchiverView {
                        verdict: Some(spec_verdict(class, false)),
                        ..seen
                    }.thread_done(),
                }
            },
            (Phase::SelectingBoard, Event::Failed(e)) => self.stopped(Err(e)),
            (Phase::ListingThreads, Event::Failed(e)) => self.stopped(Err(e)),
            (Phase::FetchingThread, Event::Failed(e)) => self.stopped(Err(e)),
            (Phase::Sleeping, Event::Continue) => ArchiverView {
                phase: Phase::SelectingBoard,
                cursor: (self.cursor + 1) % (self.names.len() as int),
                ..self
            },
            _ => self,
        }
    }

    /// The request that the state is waiting on, for the phases that wait
    /// on one, and the end of the run.
    pub open spec fn request(self) -> ActionView {
        match self.phase {
            Phase::SelectingBoard => ActionView::FetchBoards {
                request: unconditional(board_list_uri()),
            },
            Phase::ListingThreads => ActionView::FetchThreadPages {
                board: self.names[self.cursor],
                request: unconditional(thread_page_list_uri(self.names[self.cursor])),
            },
            Phase::FetchingThread => ActionView::FetchThread {
                board: self.names[self.cursor],
                thread_no: self.threads[self.next_thread],
                request: RequestView {
                    uri: thread_uri(
                        self.names[self.cursor],
                        self.threads[self.next_thread] as int,
                    ),
                    condition: spec_condition(self.ledger, self.threads[self.next_thread]),
                },
            },
            Phase::Sleeping => ActionView::Sleep { seconds: PAUSE_SECONDS },
            Phase::Stopped => ActionView::Stop(self.outcome),
            Phase::Dispatching => ActionView::AwaitPermit,
        }
    }

    /// The next action and the state it leaves. While posts are handed
    /// out, the next post goes out if a permit is free, and takes it; with
    /// no post left the engine turns to the next thread.
    pub open spec fn emit(self) -> (ArchiverView, ActionView) {
        if self.phase == Phase::Dispatching {
            if self.posts.len() == 0 {
                (self.thread_done(), self.thread_done().request())
            } else if self.in_use < self.capacity {
                (
                    ArchiverView {
                        in_use: self.in_use + 1,
                        posts: self.posts.drop_first(),
                        ..self
                    },
                    ActionView::Dispatch(
                        spec_unit(
                            self.posts[0],
                            self.names[self.cursor],
                            self.boards[self.cursor].full_media,
                        ),
                    ),
                )
            } else {
                (self, ActionView::AwaitPermit)
            }
        } else {
            (self, self.request())
        }
    }

    /// One step of the engine: the state after `event` and the action that
    /// follows it.
    pub open spec fn step(self, event: Event) -> (ArchiverView, ActionView) {
        self.apply(event).emit()
    }

    /// The state after a unit of work ended: its permit is back.
    pub open spec fn unit_finished(self) -> ArchiverView {
        if self.in_use > 0 {
            ArchiverView { in_use: (self.in_use - 1) as nat, ..self }
        } else {
            self
        }
    }

    /// The state in which a run over `names` and `boards` starts.
    pub open spec fn initial(names: Seq<Seq<char>>, boards: Seq<BoardConfig>) -> ArchiverView {
        ArchiverView {
            names,
            boards,
            ledger: Map::empty(),
            capacity: PERMITS as nat,
            in_use: 0,
            phase: if names.len() == 0 {
                Phase::Stopped
            } else {
                Phase::SelectingBoard
            },
            outcome: Ok(()),
            cursor: 0,
            threads: Seq::empty(),
            next_thread: 0,
            posts: Seq::empty(),
            verdict: None,
        }
    }
}

/// The archival engine.
#[derive(Debug)]
pub struct Archiver {
    client: Client,
    config: Config,
    permits: PermitPool,
    phase: Phase,
    outcome: Result<(), ArchiveError>,
    cursor: usize,
    threads: Vec<i64>,
    next_thread: usize,
    /// The posts still to be handed out, the next one last.
    queue: Vec<Post>,
    verdict: Option<Verdict>,
}

impl Archiver {
    /// The state of the engine.
    pub closed spec fn view(&self) -> ArchiverView {
        ArchiverView {
            names: self.config.names(),
            boards: self.config.boards(),
            ledger: self.client.ledger(),
            capacity: self.permits.capacity(),
            in_use: self.permits.in_use(),
            phase: self.phase,
            outcome: self.outcome,
            cursor: self.cursor as int,
            threads: self.threads@,
            next_thread: self.next_thread as int,
            posts: self.queue@.reverse(),
            verdict: self.verdict,
        }
    }

    /// What holds of every engine.
    pub open spec fn wf(&self) -> bool {
        self@.wf()
    }

    /// An engine that archives the boards of `config`, with a client that
    /// has fetched nothing yet and a pool of [`PERMITS`] permits. With no
    /// board configured there is nothing to do, and the run is over before
    /// it starts.
    pub fn new(config: Config) -> (archiver: Self)
        ensures
            archiver@ == ArchiverView::initial(config.names(), config.boards()),
            archiver.wf(),
    {
        let phase = if config.len() == 0 {
            Phase::Stopped
        } else {
            Phase::SelectingBoard
        };
        let archiver = Archiver {
            client: Client::new(),
            config,
            permits: PermitPool::new(PERMITS),
            phase,
            outcome: Ok(()),
            cursor: 0,
            threads: Vec::new(),
            next_thread: 0,
            queue: Vec::new(),
            verdict: None,
        };
        archiver
    }

    /// Where the engine stands.
    pub fn phase(&self) -> (phase: Phase)
        ensures
            phase == self@.phase,
    {
        self.phase
    }

    /// What was made of the last thread that was answered without error.
    pub fn verdict(&self) -> (verdict: Option<Verdict>)
        ensures
            verdict == self@.verdict,
    {
        self.verdict
    }

    /// The wire client of the engine.
    pub fn client(&self) -> (client: &Client)
        ensures
            client.ledger() == self@.ledger,
    {
        &self.client
    }

    /// The number of units of work that hold a permit. It never exceeds
    /// the size of the pool.
    pub fn in_flight(&self) -> (units: usize)
        ensures
            units == self@.in_use,
            units <= self@.capacity,
    {
        self.permits.held()
    }

    /// The job that saves the attachment itself.
    pub fn save_attachment(&self, board: &str, attachment: &PostAttachment) -> (job: BlobJob)
        ensures
            job@ == attachment_job(board@, *attachment),
    {
        let mut key = String::new();
        push_decimal(&mut key, attachment.tim);
        key.append(attachment.ext.as_str());
        let request = self.client.get_attachment_body(
            board,
            attachment.tim,
            attachment.ext.as_str(),
        );
        BlobJob { key, request }
    }

    /// The job that saves the thumbnail of the attachment.
    pub fn save_thumbnail(&self, board: &str, attachment: &PostAttachment) -> (job: BlobJob)
        ensures
            job@ == thumbnail_job(board@, *attachment),
    {
        let mut key = String::new();
        push_decimal(&mut key, attachment.tim);
        key.append("s.jpg");
        let request = self.client.get_thumbnail_body(board, attachment.tim);
        BlobJob { key, request }
    }

    /// The blobs to save for `post` of `board`, in order: the attachment,
    /// where the post has one and full media is kept, and then the
    /// thumbnail, where the post has an attachment.
    pub fn blob_jobs(&self, post: &Post, board: &str, full_media: bool) -> (jobs: Vec<BlobJob>)
        ensures
            job_views(jobs@) == spec_blob_jobs(*post, board@, full_media),
    {
        let mut jobs: Vec<BlobJob> = Vec::new();
        match post.attachment() {
            Some(attachment) => {
                if full_media {
                    jobs.push(self.save_attachment(board, &attachment));
                }
                jobs.push(self.save_thumbnail(board, &attachment));
            },
            None => {},
        }
        jobs
    }

    fn stop(&mut self, outcome: Result<(), ArchiveError>)
        ensures
            final(self)@ == old(self)@.stopped(outcome),
    {
        self.phase = Phase::Stopped;
        self.outcome = outcome;
        self.queue = Vec::new();
    }

    fn settle(&mut self)
        ensures
            final(self)@ == old(self)@.settled(),
    {
        self.phase = if self.next_thread < self.threads.len() {
            Phase::FetchingThread
        } else {
            Phase::Sleeping
        };
        self.queue = Vec::new();
    }

    fn thread_done(&mut self)
        requires
            old(self)@.next_thread < old(self)@.threads.len(),
        ensures
            final(self)@ == old(self)@.thread_done(),
    {
        assert(self.threads@.len() == self.threads.len());
        self.next_thread = self.next_thread + 1;
        self.settle();
    }

    /// Queues `posts` so that they are handed out in their order.
    fn enqueue(&mut self, posts: Vec<Post>)
        ensures
            final(self)@ == (ArchiverView { posts: posts@, ..old(self)@ }),
    {
        let mut posts = posts;
        let ghost listed = posts@;
        let mut queue: Vec<Post> = Vec::new();
        while posts.len() > 0
            invariant
                posts@ + queue@.reverse() == listed,
            decreases posts@.len(),
        {
            match posts.pop() {
                Some(post) => {
                    queue.push(post);
                },
                None => {},
            }
        }
        self.queue = queue;
    }

    fn apply(&mut self, event: Event)
        requires
            old(self).wf(),
        ensures
            final(self)@ == old(self)@.apply(event),
            final(self).wf(),
    {
        match event {
            Event::Boards(directory) => {
                if self.phase == Phase::SelectingBoard {
                    let listed = directory.position(self.config.name(self.cursor));
                    if listed.is_some() {
                        self.phase = Phase::ListingThreads;
                    } else {
                        self.stop(Err(ArchiveError::Configuration));
                    }
                }
            },
            Event::ThreadPages(pages) => {
                if self.phase == Phase::ListingThreads {
                    self.threads = pages.thread_numbers();
                    self.next_thread = 0;
                    self.settle();
                }
            },
            Event::Thread { status, body, now } => {
                if self.phase == Phase::FetchingThread {
                    let thread_no = self.threads[self.next_thread];
                    match self.client.thread_response(thread_no, status, body, now) {
                        Ok(ThreadResponse::Thread(thread)) => {
                            if self.config.board(self.cursor).admits(&thread) {
                                self.enqueue(thread.posts);
                                self.phase = Phase::Dispatching;
                                self.verdict = Some(Verdict::Kept);
                            } else {
                                self.verdict = Some(Verdict::Skipped);
                                self.thread_done();
                            }
                        },
                        Ok(ThreadResponse::NotModified) => {
                            self.verdict = Some(Verdict::NotModified);
                            self.thread_done();
                        },
                        Ok(ThreadResponse::NotFound) => {
                            self.verdict = Some(Verdict::NotFound);
                            self.thread_done();
                        },
                        Err(e) => {
                            self.stop(Err(e));
                        },
                    }
                }
            },
            Event::Failed(e) => {
                if self.phase == Phase::SelectingBoard || self.phase == Phase::ListingThreads
                    || self.phase == Phase::FetchingThread {
                    self.stop(Err(e));
                }
            },
            Event::Continue => {
                if self.phase == Phase::Sleeping {
                    let boards = self.config.len();
                    self.cursor = (self.cursor + 1) % boards;
                    self.phase = Phase::SelectingBoard;
                }
            },
        }
    }

    fn request(&self) -> (action: Action)
        requires
            self.wf(),
            self@.phase != Phase::Dispatching,
        ensures
            action@ == self@.request(),
    {
        match self.phase {
            Phase::SelectingBoard => Action::FetchBoards { request: self.client.get_board_list() },
            Phase::ListingThreads => {
                let board = self.config.name(self.cursor);
                Action::FetchThreadPages {
                    board: board.to_owned(),
                    request: self.client.get_thread_page_list(board),
                }
            },
            Phase::FetchingThread => {
                let board = self.config.name(self.cursor);
                let thread_no = self.threads[self.next_thread];
                Action::FetchThread {
                    board: board.to_owned(),
                    thread_no,
                    request: self.client.get_thread(board, thread_no),
                }
            },
            Phase::Sleeping => Action::Sleep { seconds: PAUSE_SECONDS },
            _ => Action::Stop(self.outcome),
        }
    }

    fn emit(&mut self) -> (action: Action)
        requires
            old(self).wf(),
        ensures
            (final(self)@, action@) == old(self)@.emit(),
            final(self).wf(),
    {
        if self.phase == Phase::Dispatching {
            if self.queue.len() == 0 {
                self.thread_done();
                self.request()
            } else if self.permits.try_acquire() {
                let ghost queued = self.queue@;
                match self.queue.pop() {
                    Some(post) => {
                        assert(self.queue@.reverse() =~= queued.reverse().drop_first());
                        let board = self.config.name(self.cursor);
                        let full_media = self.config.board(self.cursor).full_media;
                        let blobs = self.blob_jobs(&post, board, full_media);
                        Action::Dispatch(WorkUnit { post, board: board.to_owned(), blobs })
                    },
                    None => Action::AwaitPermit,
                }
            } else {
                Action::AwaitPermit
            }
        } else {
            self.request()
        }
    }

    /// One step of the run: takes what the last action came to and answers
    /// with the next action. The first event of a run is `Continue`.
    ///
    /// The state moves as [`ArchiverView::step`] says. An event that the
    /// engine is not waiting for changes nothing, and the action it is
    /// waiting on is given again.
    pub fn step(&mut self, event: Event) -> (action: Action)
        requires
            old(self).wf(),
        ensures
            (final(self)@, action@) == old(self)@.step(event),
            final(self).wf(),
    {
        self.apply(event);
        self.emit()
    }

    /// Takes back the permit of a unit of work that ended, whether it
    /// failed or not.
    pub fn unit_finished(&mut self)
        requires
            old(self).wf(),
        ensures
            final(self)@ == old(self)@.unit_finished(),
            final(self).wf(),
    {
        self.permits.release();
    }
}

/// Every step leaves the engine in a state that is well-formed, over the
/// same boards and with the same pool.
pub proof fn lemma_step_keeps_wf(state: ArchiverView, event: Event)
    requires
        state.wf(),
    ensures
        state.step(event).0.wf(),
        state.step(event).0.names == state.names,
        state.step(event).0.boards == state.boards,
        state.step(event).0.capacity == state.capacity,
        state.unit_finished().wf(),
        state.unit_finished().capacity == state.capacity,
{
    let applied = state.apply(event);
}

/// The permit pool bounds the work in flight. No step and no end of a unit
/// brings more permits out than the pool has. A step hands out a post only
/// where a permit was free before it, and then exactly one more permit is
/// out; any other step leaves the permits as they were. Only the end of a
/// unit brings a permit back.
pub proof fn lemma_permits_bound_dispatch(state: ArchiverView, event: Event)
    requires
        state.wf(),
    ensures
        state.step(event).0.in_use <= state.capacity,
        state.unit_finished().in_use <= state.capacity,
        state.step(event).1 is Dispatch ==> state.in_use < state.capacity && state.step(
            event,
        ).0.in_use == state.in_use + 1,
        !(state.step(event).1 is Dispatch) ==> state.step(event).0.in_use == state.in_use,
        state.in_use == state.capacity ==> !(state.step(event).1 is Dispatch),
        state.unit_finished().in_use == if state.in_use > 0 {
            state.in_use - 1
        } else {
            0
        },
{
    let applied = state.apply(event);
}

/// Posts are handed out in their listed order, one per step, each as the
/// unit of work that its board's settings ask for.
pub proof fn lemma_dispatch_in_order(state: ArchiverView)
    requires
        state.wf(),
        state.phase == Phase::Dispatching,
        state.posts.len() > 0,
        state.in_use < state.capacity,
    ensures
        state.step(Event::Continue).1 == ActionView::Dispatch(
            spec_unit(
                state.posts[0],
                state.names[state.cursor],
                state.boards[state.cursor].full_media,
            ),
        ),
        state.step(Event::Continue).0.posts == state.posts.drop_first(),
        state.step(Event::Continue).0.phase == Phase::Dispatching,
{
}

/// A thread that is unchanged, gone, or turned away by the filters of its
/// board is done with at once: no post of it is ever handed out, and the
/// engine turns to the next thread, or to the pause after the last one.
/// Only a thread that was served enters the ledger.
pub proof fn lemma_thread_without_work(
    state: ArchiverView,
    status: u16,
    body: Option<ThreadResponseInner>,
    now: i64,
)
    requires
        state.wf(),
        state.phase == Phase::FetchingThread,
        spec_thread_outcome(status, body is Some) is Ok,
        spec_thread_outcome(status, body is Some) != Ok::<StatusClass, ArchiveError>(
            StatusClass::Success,
        ) || !state.boards[state.cursor].spec_admits(body->0.posts@),
    ensures
        ({
            let after = state.step(Event::Thread { status, body, now }).0;
            let action = state.step(Event::Thread { status, body, now }).1;
            &&& after.posts.len() == 0
            &&& after.next_thread == state.next_thread + 1
            &&& after.in_use == state.in_use
            &&& !(action is Dispatch)
            &&& if state.next_thread + 1 < state.threads.len() {
                after.phase == Phase::FetchingThread && action is FetchThread
            } else {
                after.phase == Phase::Sleeping && action == (ActionView::Sleep {
                    seconds: PAUSE_SECONDS,
                })
            }
            &&& spec_thread_outcome(status, body is Some) != Ok::<StatusClass, ArchiveError>(
                StatusClass::Success,
            ) ==> after.ledger == state.ledger
            &&& after.verdict == Some(
                spec_verdict(spec_thread_outcome(status, body is Some)->Ok_0, false),
            )
            &&& after.verdict != Some(Verdict::Kept)
        }),
{
}

/// A thread that was served and is kept by its board enters the ledger, and
/// all its posts are queued in their listed order. The first of them goes
/// out at once if a permit is free. When none is left, the engine turns to
/// the next thread, or to the pause after the last one, whatever is still
/// in flight.
pub proof fn lemma_thread_with_work(
    state: ArchiverView,
    status: u16,
    body: Option<ThreadResponseInner>,
    now: i64,
)
    requires
        state.wf(),
        state.phase == Phase::FetchingThread,
        spec_thread_outcome(status, body is Some) == Ok::<StatusClass, ArchiveError>(
            StatusClass::Success,
        ),
        state.boards[state.cursor].spec_admits(body->0.posts@),
    ensures
        ({
            let event = Event::Thread { status, body, now };
            let queued = state.apply(event);
            let after = state.step(event).0;
            &&& queued.phase == Phase::Dispatching
            &&& queued.posts == body->0.posts@
            &&& queued.verdict == Some(Verdict::Kept)
            &&& queued.next_thread == state.next_thread
            &&& after.ledger == state.ledger.insert(state.threads[state.next_thread], now)
            &&& body->0.posts@.len() > 0 && state.in_use < state.capacity ==> state.step(event).1
                == ActionView::Dispatch(
                spec_unit(
                    body->0.posts@[0],
                    state.names[state.cursor],
                    state.boards[state.cursor].full_media,
                ),
            )
            &&& body->0.posts@.len() == 0 ==> after.next_thread == state.next_thread + 1
        }),
        forall|dispatching: ArchiverView|
            dispatching.wf() && dispatching.phase == Phase::Dispatching && dispatching.posts.len()
                == 0 ==> #[trigger] dispatching.step(Event::Continue).0.next_thread
                == dispatching.next_thread + 1 && dispatching.step(Event::Continue).0.phase
                != Phase::Dispatching,
{
}

/// A failure while the directory, the index pages or a thread is awaited
/// ends the run with that failure, and so does a configured board that the
/// directory does not list. Once the run is over it stays over.
pub proof fn lemma_failures_end_the_run(state: ArchiverView, event: Event, e: ArchiveError)
    requires
        state.wf(),
    ensures
        (state.phase == Phase::SelectingBoard || state.phase == Phase::ListingThreads
            || state.phase == Phase::FetchingThread) ==> state.step(Event::Failed(e)).1
            == ActionView::Stop(Err(e)),
        event matches Event::Boards(directory) ==> (state.phase == Phase::SelectingBoard
            && !lists_board(directory.boards@, state.names[state.cursor]) ==> state.step(event).1
            == ActionView::Stop(Err(ArchiveError::Configuration))),
        state.phase == Phase::Stopped ==> state.step(event).0 == state && state.step(event).1
            == ActionView::Stop(state.outcome),
{
}

/// The boards are archived in turn, without end: after the pause the
/// engine selects the board that follows the current one, and the first
/// board after the last.
pub proof fn lemma_boards_in_turn(state: ArchiverView)
    requires
        state.wf(),
        state.phase == Phase::Sleeping,
    ensures
        state.step(Event::Continue).0.phase == Phase::SelectingBoard,
        state.step(Event::Continue).1 is FetchBoards,
        state.step(Event::Continue).0.cursor == if state.cursor + 1 < state.names.len() {
            state.cursor + 1
        } else {
            0
        },
{
    let c = state.cursor;
    let n = state.names.len() as int;
    assert((c + 1) % n == if c + 1 < n {
        c + 1
    } else {
        0
    }) by (nonlinear_arith)
        requires
            0 <= c < n,
    ;
}

/// Where the board does not keep full media, the attachment of a post is
/// never among the blobs to save, and its thumbnail always is.
pub proof fn lemma_thumbnail_only(post: Post, board: Seq<char>)
    requires
        post.has_attachment(),
    ensures
        spec_blob_jobs(post, board, false) == seq![thumbnail_job(board, post.spec_attachment()->0)],
        spec_blob_jobs(post, board, true).len() == 2,
        spec_blob_jobs(post, board, true)[1] == thumbnail_job(board, post.spec_attachment()->0),
{
}

} // verus!
