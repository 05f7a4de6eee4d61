use arkiv::archiver::{
    Action, Archiver, Event, Phase, Verdict, WorkUnit, PAUSE_SECONDS, PERMITS,
};
use arkiv::board::{Board, BoardsResponse, Cooldowns};
use arkiv::config::{BoardConfig, Config, CustomRegex};
use arkiv::error::ArchiveError;
use arkiv::post::Post;
use arkiv::repository::PostTable;
use arkiv::storage::memory::MemoryStorage;
use arkiv::storage::Storage;
use arkiv::unit::{Report, Task, UnitRun};
use arkiv::thread::{ThreadEntry, ThreadListPage, ThreadPageListResponse, ThreadResponseInner};

fn post(no: i64, resto: i64) -> Post {
    Post {
        no,
        resto,
        sticky: 0,
        closed: 0,
        now: String::new(),
        time: 0,
        name: "Anonymous".to_string(),
        trip: None,
        id: None,
        capcode: None,
        country: None,
        country_name: None,
        board_flag: None,
        flag_name: None,
        sub: None,
        com: None,
        tim: None,
        filename: None,
        ext: None,
        fsize: None,
        md5: None,
        w: None,
        h: None,
        tn_w: None,
        tn_h: None,
        filedeleted: 0,
        spoiler: 0,
        custom_spoiler: None,
        replies: None,
        images: None,
        bumplimit: 0,
        imagelimit: 0,
        tag: None,
        semantic_url: None,
        since4pass: None,
        unique_ips: None,
        m_img: 0,
        archived: 0,
        archived_on: None,
        board: String::new(),
    }
}

fn with_attachment(no: i64, resto: i64, tim: i64) -> Post {
    Post {
        tim: Some(tim),
        filename: Some("file".to_string()),
        ext: Some(".jpg".to_string()),
        fsize: Some(10),
        md5: Some("hash".to_string()),
        w: Some(1),
        h: Some(2),
        tn_w: Some(3),
        tn_h: Some(4),
        ..post(no, resto)
    }
}

fn board(code: &str) -> Board {
    Board {
        board: code.to_string(),
        title: "Title".to_string(),
        ws_board: 1,
        per_page: 15,
        pages: 10,
        max_filesize: 4096,
        max_webm_filesize: 3072,
        max_comment_chars: 2000,
        max_webm_duration: 120,
        bump_limit: 310,
        image_limit: 150,
        cooldowns: Cooldowns { threads: 600, replies: 60, images: 60 },
        meta_description: String::new(),
        spoilers: None,
        custom_spoilers: None,
        is_archived: None,
        board_flags: None,
        country_flags: None,
        user_ids: None,
        oekaki: None,
        sjis_tags: None,
        code_tags: None,
        math_tags: None,
        text_only: None,
        forced_anon: None,
        webm_audio: None,
        require_subject: None,
        min_image_width: None,
        min_image_height: None,
    }
}

fn directory(codes: &[&str]) -> Event {
    Event::Boards(BoardsResponse { boards: codes.iter().map(|c| board(c)).collect() })
}

fn pages(numbers: &[&[i64]]) -> Event {
    Event::ThreadPages(ThreadPageListResponse(
        numbers
            .iter()
            .enumerate()
            .map(|(i, page)| ThreadListPage {
                page: i as i64 + 1,
                threads: page
                    .iter()
                    .map(|no| ThreadEntry { no: *no, last_modified: 0, replies: 0 })
                    .collect(),
            })
            .collect(),
    ))
}

fn served(posts: Vec<Post>, now: i64) -> Event {
    Event::Thread { status: 200, body: Some(ThreadResponseInner { posts }), now }
}

fn one_board(name: &str, settings: BoardConfig) -> Archiver {
    Archiver::new(Config::new().insert(name, settings))
}

fn fetched_thread(action: &Action) -> i64 {
    match action {
        Action::FetchThread { thread_no, .. } => *thread_no,
        other => panic!("expected a thread request, got {:?}", other),
    }
}

fn dispatched(action: Action) -> WorkUnit {
    match action {
        Action::Dispatch(unit) => unit,
        other => panic!("expected a unit of work, got {:?}", other),
    }
}

#[test]
fn constants() {
    assert_eq!(PERMITS, 4);
    assert_eq!(PAUSE_SECONDS, 600);
}

#[test]
fn empty_configuration_ends_at_once() {
    let mut archiver = Archiver::new(Config::new());
    assert_eq!(archiver.phase(), Phase::Stopped);
    assert!(matches!(archiver.step(Event::Continue), Action::Stop(Ok(()))));
    assert!(matches!(archiver.step(directory(&["g"])), Action::Stop(Ok(()))));
}

#[test]
fn run_starts_with_the_directory() {
    let mut archiver = one_board("g", BoardConfig::new());
    assert_eq!(archiver.phase(), Phase::SelectingBoard);
    match archiver.step(Event::Continue) {
        Action::FetchBoards { request } => {
            assert_eq!(request.uri, "https://a.4cdn.org/boards.json");
            assert_eq!(request.if_modified_since, None);
        }
        other => panic!("unexpected {:?}", other),
    }
    assert_eq!(archiver.phase(), Phase::SelectingBoard);
}

#[test]
fn unknown_board_is_a_configuration_error() {
    let mut archiver = one_board("g", BoardConfig::new());
    archiver.step(Event::Continue);
    assert!(matches!(
        archiver.step(directory(&["a", "b"])),
        Action::Stop(Err(ArchiveError::Configuration))
    ));
    assert_eq!(archiver.phase(), Phase::Stopped);
    assert!(matches!(
        archiver.step(Event::Continue),
        Action::Stop(Err(ArchiveError::Configuration))
    ));
}

#[test]
fn listing_failures_end_the_run() {
    let mut archiver = one_board("g", BoardConfig::new());
    archiver.step(Event::Continue);
    assert!(matches!(
        archiver.step(Event::Failed(ArchiveError::Transport)),
        Action::Stop(Err(ArchiveError::Transport))
    ));

    let mut archiver = one_board("g", BoardConfig::new());
    archiver.step(Event::Continue);
    archiver.step(directory(&["g"]));
    assert!(matches!(
        archiver.step(Event::Failed(ArchiveError::Decode)),
        Action::Stop(Err(ArchiveError::Decode))
    ));

    let mut archiver = one_board("g", BoardConfig::new());
    archiver.step(Event::Continue);
    archiver.step(directory(&["g"]));
    archiver.step(pages(&[&[1]]));
    assert!(matches!(
        archiver.step(Event::Thread { status: 500, body: None, now: 1 }),
        Action::Stop(Err(ArchiveError::Transport))
    ));
}

#[test]
fn threads_are_fetched_page_by_page() {
    let mut archiver = one_board("g", BoardConfig::new());
    archiver.step(Event::Continue);
    match archiver.step(directory(&["a", "g"])) {
        Action::FetchThreadPages { board, request } => {
            assert_eq!(board, "g");
            assert_eq!(request.uri, "https://a.4cdn.org/g/threads.json");
        }
        other => panic!("unexpected {:?}", other),
    }
    let first = archiver.step(pages(&[&[30, 10], &[], &[20]]));
    match &first {
        Action::FetchThread { board, thread_no, request } => {
            assert_eq!(board, "g");
            assert_eq!(*thread_no, 30);
            assert_eq!(request.uri, "https://a.4cdn.org/g/thread/30.json");
            assert_eq!(request.if_modified_since, None);
        }
        other => panic!("unexpected {:?}", other),
    }
    assert_eq!(archiver.verdict(), None);
    let second = archiver.step(Event::Thread { status: 304, body: None, now: 5 });
    assert_eq!(fetched_thread(&second), 10);
    assert_eq!(archiver.verdict(), Some(Verdict::NotModified));
    let third = archiver.step(Event::Thread { status: 404, body: None, now: 6 });
    assert_eq!(fetched_thread(&third), 20);
    assert_eq!(archiver.verdict(), Some(Verdict::NotFound));
    assert!(matches!(
        archiver.step(Event::Thread { status: 304, body: None, now: 7 }),
        Action::Sleep { seconds: 600 }
    ));
    assert_eq!(archiver.phase(), Phase::Sleeping);
    assert_eq!(archiver.client().last_fetched(30), None);
}

#[test]
fn board_without_threads_goes_to_sleep() {
    let mut archiver = one_board("g", BoardConfig::new());
    archiver.step(Event::Continue);
    archiver.step(directory(&["g"]));
    assert!(matches!(archiver.step(pages(&[])), Action::Sleep { seconds: 600 }));
}

#[test]
fn boards_are_archived_in_turn() {
    let config = Config::new().insert("a", BoardConfig::new()).insert("b", BoardConfig::new());
    let mut archiver = Archiver::new(config);
    let mut seen = Vec::new();
    archiver.step(Event::Continue);
    for _ in 0..5 {
        match archiver.step(directory(&["a", "b"])) {
            Action::FetchThreadPages { board, .. } => seen.push(board),
            other => panic!("unexpected {:?}", other),
        }
        assert!(matches!(archiver.step(pages(&[])), Action::Sleep { .. }));
        assert!(matches!(archiver.step(Event::Continue), Action::FetchBoards { .. }));
    }
    assert_eq!(seen, vec!["a", "b", "a", "b", "a"]);
}

#[test]
fn unexpected_events_repeat_the_pending_action() {
    let mut archiver = one_board("g", BoardConfig::new());
    archiver.step(Event::Continue);
    assert!(matches!(archiver.step(pages(&[&[1]])), Action::FetchBoards { .. }));
    archiver.step(directory(&["g"]));
    assert!(matches!(archiver.step(Event::Continue), Action::FetchThreadPages { .. }));
    archiver.step(pages(&[&[1]]));
    assert_eq!(fetched_thread(&archiver.step(directory(&["g"]))), 1);
    archiver.step(Event::Thread { status: 404, body: None, now: 0 });
    assert!(matches!(
        archiver.step(Event::Failed(ArchiveError::Transport)),
        Action::Sleep { .. }
    ));
}

#[test]
fn second_fetch_of_a_thread_is_conditional() {
    let mut archiver = one_board("g", BoardConfig::new());
    archiver.step(Event::Continue);
    archiver.step(directory(&["g"]));
    archiver.step(pages(&[&[1]]));
    assert!(matches!(archiver.step(served(Vec::new(), 784111777)), Action::Sleep { .. }));
    archiver.step(Event::Continue);
    archiver.step(directory(&["g"]));
    match archiver.step(pages(&[&[1, 2]])) {
        Action::FetchThread { thread_no, request, .. } => {
            assert_eq!(thread_no, 1);
            assert_eq!(
                request.if_modified_since.as_deref(),
                Some("Sun, 06 Nov 1994 08:49:37 GMT")
            );
        }
        other => panic!("unexpected {:?}", other),
    }
    match archiver.step(Event::Thread { status: 304, body: None, now: 784119999 }) {
        Action::FetchThread { thread_no, request, .. } => {
            assert_eq!(thread_no, 2);
            assert_eq!(request.if_modified_since, None);
        }
        other => panic!("unexpected {:?}", other),
    }
    assert_eq!(archiver.client().last_fetched(1), Some(784111777));
}

#[test]
fn posts_are_dispatched_in_listed_order() {
    let mut archiver = one_board("g", BoardConfig::new());
    archiver.step(Event::Continue);
    archiver.step(directory(&["g"]));
    archiver.step(pages(&[&[100, 200]]));
    let first = dispatched(archiver.step(served(vec![post(100, 0), post(101, 100), post(102, 100)], 1)));
    assert_eq!(first.post.no, 100);
    assert_eq!(first.board, "g");
    assert!(first.blobs.is_empty());
    assert_eq!(archiver.phase(), Phase::Dispatching);
    assert_eq!(archiver.in_flight(), 1);
    assert_eq!(dispatched(archiver.step(Event::Continue)).post.no, 101);
    assert_eq!(dispatched(archiver.step(Event::Continue)).post.no, 102);
    assert_eq!(archiver.in_flight(), 3);
    assert_eq!(fetched_thread(&archiver.step(Event::Continue)), 200);
    assert_eq!(archiver.in_flight(), 3);
}

#[test]
fn at_most_four_units_hold_a_permit() {
    let mut archiver = one_board("g", BoardConfig::new());
    archiver.step(Event::Continue);
    archiver.step(directory(&["g"]));
    archiver.step(pages(&[&[1]]));
    let posts: Vec<Post> = (0..11).map(|i| post(1 + i, if i == 0 { 0 } else { 1 })).collect();
    let mut action = archiver.step(served(posts, 1));
    let mut started = Vec::new();
    let mut running = 0usize;
    let mut most = 0usize;
    let mut waits = 0usize;
    loop {
        match action {
            Action::Dispatch(unit) => {
                started.push(unit.post.no);
                running += 1;
                most = most.max(running);
                assert_eq!(archiver.in_flight(), running);
                assert!(running <= PERMITS);
                action = archiver.step(Event::Continue);
            }
            Action::AwaitPermit => {
                assert_eq!(running, PERMITS);
                assert_eq!(archiver.in_flight(), PERMITS);
                waits += 1;
                archiver.unit_finished();
                running -= 1;
                action = archiver.step(Event::Continue);
            }
            Action::Sleep { .. } => break,
            other => panic!("unexpected {:?}", other),
        }
    }
    assert_eq!(started, (1..=11).collect::<Vec<i64>>());
    assert_eq!(most, 4);
    assert_eq!(waits, 7);
    assert_eq!(archiver.in_flight(), 4);
    for _ in 0..6 {
        archiver.unit_finished();
    }
    assert_eq!(archiver.in_flight(), 0);
}

#[test]
fn waiting_without_a_free_permit_changes_nothing() {
    let mut archiver = one_board("g", BoardConfig::new());
    archiver.step(Event::Continue);
    archiver.step(directory(&["g"]));
    archiver.step(pages(&[&[1]]));
    let posts: Vec<Post> = (0..6).map(|i| post(1 + i, 0)).collect();
    archiver.step(served(posts, 1));
    for _ in 0..3 {
        archiver.step(Event::Continue);
    }
    assert!(matches!(archiver.step(Event::Continue), Action::AwaitPermit));
    assert!(matches!(archiver.step(Event::Continue), Action::AwaitPermit));
    assert_eq!(archiver.in_flight(), 4);
    archiver.unit_finished();
    assert_eq!(dispatched(archiver.step(Event::Continue)).post.no, 5);
}

#[test]
fn rejected_thread_dispatches_nothing() {
    let settings = BoardConfig {
        filters: vec![CustomRegex::new("general").unwrap()],
        ..BoardConfig::new()
    };
    let mut archiver = one_board("g", settings);
    archiver.step(Event::Continue);
    archiver.step(directory(&["g"]));
    archiver.step(pages(&[&[1, 2]]));
    let opening = Post { sub: Some("Daily General".to_string()), ..post(1, 0) };
    let next = archiver.step(served(vec![opening, post(3, 1)], 9));
    assert_eq!(fetched_thread(&next), 2);
    assert_eq!(archiver.verdict(), Some(Verdict::Skipped));
    assert_eq!(archiver.in_flight(), 0);
    assert_eq!(archiver.client().last_fetched(1), Some(9));
    let kept = Post { sub: Some("something else".to_string()), ..post(2, 0) };
    assert_eq!(dispatched(archiver.step(served(vec![kept], 10))).post.no, 2);
    assert_eq!(archiver.verdict(), Some(Verdict::Kept));
}

#[test]
fn units_carry_the_blobs_to_save() {
    let mut archiver = one_board("g", BoardConfig::new());
    archiver.step(Event::Continue);
    archiver.step(directory(&["g"]));
    archiver.step(pages(&[&[1]]));
    let unit = dispatched(archiver.step(served(vec![with_attachment(1, 0, 1650000000123)], 1)));
    assert_eq!(unit.blobs.len(), 2);
    assert_eq!(unit.blobs[0].key, "1650000000123.jpg");
    assert_eq!(unit.blobs[0].request.uri, "https://i.4cdn.org/g/1650000000123.jpg");
    assert_eq!(unit.blobs[1].key, "1650000000123s.jpg");
    assert_eq!(unit.blobs[1].request.uri, "https://i.4cdn.org/g/1650000000123s.jpg");
    assert_eq!(unit.blobs[1].request.if_modified_since, None);
}

#[test]
fn blob_jobs_of_a_post() {
    let archiver = one_board("g", BoardConfig::new());
    assert!(archiver.blob_jobs(&post(1, 0), "g", true).is_empty());
    let pictured = with_attachment(1, 0, 55);
    let all = archiver.blob_jobs(&pictured, "wg", true);
    assert_eq!(all.len(), 2);
    assert_eq!(all[0].key, "55.jpg");
    assert_eq!(all[1].key, "55s.jpg");
    let thumbnails = archiver.blob_jobs(&pictured, "wg", false);
    assert_eq!(thumbnails.len(), 1);
    assert_eq!(thumbnails[0].key, "55s.jpg");
    assert_eq!(thumbnails[0].request.uri, "https://i.4cdn.org/wg/55s.jpg");
    let attachment = pictured.attachment().unwrap();
    assert_eq!(archiver.save_attachment("wg", &attachment).key, "55.jpg");
    assert_eq!(archiver.save_thumbnail("wg", &attachment).key, "55s.jpg");
}

fn archive(unit: WorkUnit, table: &mut PostTable, storage: &mut MemoryStorage) -> usize {
    let mut fetches = 0;
    let mut run = UnitRun::new(unit);
    let mut report = Report::Begin;
    loop {
        let task = run.next(report);
        let work = run.unit();
        report = match task {
            Task::SavePost => {
                table.save_post(work.post.clone(), &work.board);
                Report::Done
            }
            Task::CheckBlob(blob) => {
                match storage.contains(&work.blobs[blob].key, Some(&work.board)) {
                    Ok(found) => Report::Found(found),
                    Err(_) => Report::Failed,
                }
            }
            Task::FetchBlob(blob) => {
                fetches += 1;
                Report::Body {
                    status: 200,
                    bytes: work.blobs[blob].request.uri.as_bytes().to_vec(),
                }
            }
            Task::StoreBlob(blob, bytes) => {
                match storage.save(&work.blobs[blob].key, Some(&work.board), &bytes) {
                    Ok(()) => Report::Done,
                    Err(_) => Report::Failed,
                }
            }
            Task::Finish(outcome) => {
                assert_eq!(outcome, Ok(()));
                return fetches;
            }
        };
    }
}

#[test]
fn thumbnails_only_end_to_end() {
    let mut table = PostTable::new();
    let mut storage = MemoryStorage::new();
    let mut archiver = one_board("x", BoardConfig { full_media: false, ..BoardConfig::new() });
    archiver.step(Event::Continue);
    archiver.step(directory(&["x"]));
    archiver.step(pages(&[&[1]]));
    let unit = dispatched(archiver.step(served(vec![with_attachment(1, 0, 777)], 1)));
    assert_eq!(archive(unit, &mut table, &mut storage), 1);
    archiver.unit_finished();
    assert!(matches!(archiver.step(Event::Continue), Action::Sleep { .. }));

    let row = table.get(1).unwrap();
    assert_eq!(row.board, "x");
    assert_eq!(row.tim, Some(777));
    assert_eq!(storage.contains("777s.jpg", Some("x")), Ok(true));
    assert_eq!(storage.contains("777.jpg", Some("x")), Ok(false));
    assert_eq!(
        storage.get("777s.jpg", Some("x")),
        Ok(b"https://i.4cdn.org/x/777s.jpg".to_vec())
    );
}

#[test]
fn stored_blobs_are_not_fetched_again() {
    let mut table = PostTable::new();
    let mut storage = MemoryStorage::new();
    let mut archiver = one_board("g", BoardConfig::new());
    let mut fetches = Vec::new();
    archiver.step(Event::Continue);
    for round in 0..2 {
        archiver.step(directory(&["g"]));
        archiver.step(pages(&[&[1]]));
        let opening = Post { replies: Some(round), ..with_attachment(1, 0, 42) };
        let unit = dispatched(archiver.step(served(vec![opening], 100 + round)));
        fetches.push(archive(unit, &mut table, &mut storage));
        archiver.unit_finished();
        assert!(matches!(archiver.step(Event::Continue), Action::Sleep { .. }));
        archiver.step(Event::Continue);
    }
    assert_eq!(fetches, vec![2, 0]);
    assert_eq!(table.len(), 1);
    assert_eq!(table.get(1).unwrap().replies, Some(1));
    assert_eq!(storage.contains("42.jpg", Some("g")), Ok(true));
    assert_eq!(storage.contains("42s.jpg", Some("g")), Ok(true));
}
