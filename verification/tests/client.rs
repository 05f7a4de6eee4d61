use arkiv::client::{body_response, classify, Client, StatusClass};
use arkiv::error::ArchiveError;
use arkiv::text::decimal_string;
use arkiv::thread::{ThreadResponse, ThreadResponseInner};

#[test]
fn decimal_numerals() {
    assert_eq!(decimal_string(0), "0");
    assert_eq!(decimal_string(7), "7");
    assert_eq!(decimal_string(10), "10");
    assert_eq!(decimal_string(1234567890123), "1234567890123");
    assert_eq!(decimal_string(-45), "-45");
    assert_eq!(decimal_string(i64::MAX), "9223372036854775807");
    assert_eq!(decimal_string(i64::MIN), "-9223372036854775808");
}

#[test]
fn request_addresses() {
    let client = Client::new();
    assert_eq!(client.get_board_list().uri, "https://a.4cdn.org/boards.json");
    assert_eq!(
        client.get_thread_page_list("g").uri,
        "https://a.4cdn.org/g/threads.json"
    );
    assert_eq!(
        client.get_thread("g", 12345).uri,
        "https://a.4cdn.org/g/thread/12345.json"
    );
    assert_eq!(
        client.get_attachment_body("g", 1650000000123, ".png").uri,
        "https://i.4cdn.org/g/1650000000123.png"
    );
    assert_eq!(
        client.get_thumbnail_body("g", 1650000000123).uri,
        "https://i.4cdn.org/g/1650000000123s.jpg"
    );
}

#[test]
fn statuses_are_classified() {
    assert_eq!(classify(200), StatusClass::Success);
    assert_eq!(classify(204), StatusClass::Success);
    assert_eq!(classify(299), StatusClass::Success);
    assert_eq!(classify(304), StatusClass::NotModified);
    assert_eq!(classify(404), StatusClass::NotFound);
    assert_eq!(classify(199), StatusClass::Failure);
    assert_eq!(classify(300), StatusClass::Failure);
    assert_eq!(classify(500), StatusClass::Failure);
}

#[test]
fn first_request_is_unconditional() {
    let client = Client::new();
    assert_eq!(client.last_fetched(1), None);
    assert_eq!(client.get_thread("g", 1).if_modified_since, None);
}

#[test]
fn conditional_fetch_after_success() {
    let mut client = Client::new();
    let served = client.thread_response(
        1,
        200,
        Some(ThreadResponseInner { posts: Vec::new() }),
        784111777,
    );
    assert!(matches!(served, Ok(ThreadResponse::Thread(_))));
    assert_eq!(client.last_fetched(1), Some(784111777));
    assert_eq!(
        client.get_thread("g", 1).if_modified_since,
        Some("Sun, 06 Nov 1994 08:49:37 GMT".to_string())
    );
    assert_eq!(client.get_thread("g", 2).if_modified_since, None);

    let unchanged = client.thread_response(1, 304, None, 784111999);
    assert!(matches!(unchanged, Ok(ThreadResponse::NotModified)));
    assert_eq!(client.last_fetched(1), Some(784111777));
}

#[test]
fn pruned_thread_is_not_an_error() {
    let mut client = Client::new();
    let gone = client.thread_response(9, 404, None, 5);
    assert!(matches!(gone, Ok(ThreadResponse::NotFound)));
    assert_eq!(client.last_fetched(9), None);
}

#[test]
fn thread_failures() {
    let mut client = Client::new();
    assert!(matches!(
        client.thread_response(9, 200, None, 5),
        Err(ArchiveError::Decode)
    ));
    assert!(matches!(
        client.thread_response(9, 500, None, 5),
        Err(ArchiveError::Transport)
    ));
    assert!(matches!(
        client.thread_response(9, 503, Some(ThreadResponseInner { posts: Vec::new() }), 5),
        Err(ArchiveError::Transport)
    ));
    assert_eq!(client.last_fetched(9), None);
}

#[test]
fn instants_without_a_date_make_no_condition() {
    let mut client = Client::new();
    let _ = client.thread_response(
        3,
        200,
        Some(ThreadResponseInner { posts: Vec::new() }),
        i64::MAX,
    );
    assert_eq!(client.last_fetched(3), Some(i64::MAX));
    assert_eq!(client.get_thread("g", 3).if_modified_since, None);
}

#[test]
fn blob_answers() {
    assert_eq!(body_response(200, vec![1, 2]), Ok(vec![1, 2]));
    assert_eq!(body_response(404, vec![1, 2]), Err(ArchiveError::NotFound));
    assert_eq!(body_response(502, vec![]), Err(ArchiveError::Transport));
    assert_eq!(body_response(304, vec![]), Err(ArchiveError::Transport));
}

#[test]
fn error_messages() {
    assert_eq!(ArchiveError::Transport.message(), "transport error");
    assert_eq!(ArchiveError::Decode.message(), "malformed response");
    assert_eq!(ArchiveError::NotFound.message(), "not found");
    assert_eq!(ArchiveError::Persistence.message(), "persistence error");
    assert_eq!(ArchiveError::Storage.message(), "storage error");
    assert_eq!(ArchiveError::Configuration.message(), "configuration error");
}
