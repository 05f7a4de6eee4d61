use arkiv::config::{BoardConfig, CustomRegex};
use arkiv::filter::{admission, strip_markup, visible_text};
use arkiv::post::Post;
use arkiv::thread::ThreadResponseInner;

fn opening(sub: Option<&str>, com: Option<&str>) -> Post {
    Post {
        no: 1,
        resto: 0,
        sticky: 0,
        closed: 0,
        now: String::new(),
        time: 0,
        name: "Anonymous".to_string(),
        trip: None,
        id: None,
        capcode: None,
        country: None,
        country_name: None,
        board_flag: None,
        flag_name: None,
        sub: sub.map(|s| s.to_string()),
        com: com.map(|s| s.to_string()),
        tim: None,
        filename: None,
        ext: None,
        fsize: None,
        md5: None,
        w: None,
        h: None,
        tn_w: None,
        tn_h: None,
        filedeleted: 0,
        spoiler: 0,
        custom_spoiler: None,
        replies: None,
        images: None,
        bumplimit: 0,
        imagelimit: 0,
        tag: None,
        semantic_url: None,
        since4pass: None,
        unique_ips: None,
        m_img: 0,
        archived: 0,
        archived_on: None,
        board: String::new(),
    }
}

fn thread(sub: Option<&str>, com: Option<&str>) -> ThreadResponseInner {
    ThreadResponseInner { posts: vec![opening(sub, com)] }
}

fn board(patterns: &[&str], reverse: bool, comment: bool) -> BoardConfig {
    BoardConfig {
        full_media: true,
        filters: patterns.iter().map(|p| CustomRegex::new(p).unwrap()).collect(),
        filter_comment: comment,
        reverse_filter: reverse,
    }
}

#[test]
fn markup_is_stripped_in_document_order() {
    assert_eq!(strip_markup("foo<br>bar <b>baz</b>"), "foobar baz");
    assert_eq!(strip_markup("plain"), "plain");
    assert_eq!(strip_markup(""), "");
    assert_eq!(
        strip_markup("<a href=\"#p100\" class=\"quotelink\">&gt;&gt;1</a><br>same"),
        ">>1same"
    );
}

#[test]
fn visible_text_joins_text_nodes_only() {
    let nodes = vec![None, Some("a".to_string()), None, Some("bc".to_string())];
    assert_eq!(visible_text(&nodes), "abc");
    assert_eq!(visible_text(&Vec::new()), "");
    assert_eq!(visible_text(&vec![None, None]), "");
}

#[test]
fn filters_ignore_case() {
    let filter = CustomRegex::new("foo").unwrap();
    assert!(filter.is_match("Foobar"));
    assert!(filter.is_match("a FOO"));
    assert!(!filter.is_match("bar"));
}

#[test]
fn admission_follows_the_reverse_flag() {
    assert!(!admission(true, true, true, false));
    assert!(admission(true, true, true, true));
    assert!(admission(true, true, false, false));
    assert!(!admission(true, true, false, true));
}

#[test]
fn admission_without_filters_or_opening_post() {
    for matched in [false, true] {
        for reverse in [false, true] {
            assert!(admission(false, true, matched, reverse));
            assert!(admission(false, false, matched, reverse));
            assert!(admission(true, false, matched, reverse));
        }
    }
}

#[test]
fn no_filters_admit_every_thread() {
    for reverse in [false, true] {
        for comment in [false, true] {
            let unfiltered = board(&[], reverse, comment);
            assert!(unfiltered.admits(&thread(Some("Foobar"), Some("body"))));
            assert!(unfiltered.admits(&thread(None, None)));
            assert!(unfiltered.admits(&ThreadResponseInner { posts: Vec::new() }));
        }
    }
}

#[test]
fn matching_thread_is_kept_only_when_reversed() {
    let foobar = thread(Some("Foobar"), None);
    assert!(board(&["foo"], false, false).matches(&foobar.posts[0]));
    assert!(!board(&["foo"], false, false).admits(&foobar));
    assert!(board(&["foo"], true, false).admits(&foobar));
}

#[test]
fn thread_without_match_is_kept_unless_reversed() {
    let other = thread(Some("something else"), Some("foo in the body"));
    assert!(!board(&["foo"], false, false).matches(&other.posts[0]));
    assert!(board(&["foo"], false, false).admits(&other));
    assert!(!board(&["foo"], true, false).admits(&other));
}

#[test]
fn body_takes_part_only_where_asked() {
    let in_body = thread(Some("subject"), Some("a <b>fo</b>o text"));
    assert!(!board(&["foo"], true, false).admits(&in_body));
    assert!(board(&["foo"], true, true).admits(&in_body));
    assert!(!board(&["foo"], false, true).admits(&in_body));
}

#[test]
fn tags_are_not_matched() {
    let tagged = thread(None, Some("<span class=\"quote\">text</span>"));
    assert!(!board(&["span"], true, true).matches(&tagged.posts[0]));
    assert!(board(&["^text$"], true, true).matches(&tagged.posts[0]));
}

#[test]
fn any_filter_may_match() {
    let filters = board(&["alpha", "beta", "gamma"], true, false);
    assert!(filters.admits(&thread(Some("the Beta thread"), None)));
    assert!(filters.admits(&thread(Some("GAMMA"), None)));
    assert!(!filters.admits(&thread(Some("delta"), None)));
    assert!(!filters.admits(&thread(None, None)));
}

#[test]
fn thread_without_opening_post_is_kept() {
    let empty = ThreadResponseInner { posts: Vec::new() };
    assert!(board(&["foo"], false, true).admits(&empty));
    assert!(board(&["foo"], true, true).admits(&empty));
}
