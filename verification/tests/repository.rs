use arkiv::post::Post;
use arkiv::repository::PostTable;
use arkiv::statement::{
    columns, refreshed_columns, upsert_bindings, upsert_statement, Column, SqlValue,
};

fn post(no: i64) -> Post {
    Post {
        no,
        resto: 0,
        sticky: 0,
        closed: 0,
        now: "04/15/22(Fri)12:00:00".to_string(),
        time: 1650024000,
        name: "Anonymous".to_string(),
        trip: None,
        id: None,
        capcode: None,
        country: None,
        country_name: None,
        board_flag: None,
        flag_name: None,
        sub: Some("first subject".to_string()),
        com: Some("first body".to_string()),
        tim: None,
        filename: None,
        ext: None,
        fsize: None,
        md5: None,
        w: None,
        h: None,
        tn_w: None,
        tn_h: None,
        filedeleted: 0,
        spoiler: 0,
        custom_spoiler: None,
        replies: Some(1),
        images: Some(0),
        bumplimit: 0,
        imagelimit: 0,
        tag: None,
        semantic_url: None,
        since4pass: None,
        unique_ips: Some(1),
        m_img: 0,
        archived: 0,
        archived_on: None,
        board: String::new(),
    }
}

#[test]
fn first_upsert_stores_the_post_whole() {
    let mut table = PostTable::new();
    assert_eq!(table.len(), 0);
    assert!(table.get(10).is_none());
    table.upsert(post(10));
    assert_eq!(table.len(), 1);
    let row = table.get(10).unwrap();
    assert_eq!(row.no, 10);
    assert_eq!(row.sub.as_deref(), Some("first subject"));
    assert_eq!(row.replies, Some(1));
}

#[test]
fn second_upsert_refreshes_the_mutable_fields_only() {
    let mut table = PostTable::new();
    table.upsert(post(10));
    table.upsert(Post {
        replies: Some(25),
        images: Some(4),
        unique_ips: Some(12),
        filedeleted: 1,
        bumplimit: 1,
        imagelimit: 1,
        archived: 1,
        archived_on: Some(1650099999),
        ..post(10)
    });
    assert_eq!(table.len(), 1);
    let row = table.get(10).unwrap();
    assert_eq!(row.replies, Some(25));
    assert_eq!(row.images, Some(4));
    assert_eq!(row.unique_ips, Some(12));
    assert_eq!(row.filedeleted, 1);
    assert_eq!(row.bumplimit, 1);
    assert_eq!(row.imagelimit, 1);
    assert_eq!(row.archived, 1);
    assert_eq!(row.archived_on, Some(1650099999));
    assert_eq!(row.sub.as_deref(), Some("first subject"));
    assert_eq!(row.com.as_deref(), Some("first body"));
}

#[test]
fn immutable_fields_keep_the_first_write() {
    let mut table = PostTable::new();
    table.save_post(post(10), "g");
    table.save_post(
        Post {
            sub: Some("edited".to_string()),
            com: None,
            name: "Someone".to_string(),
            sticky: 1,
            tim: Some(3),
            replies: Some(2),
            ..post(10)
        },
        "x",
    );
    assert_eq!(table.len(), 1);
    let row = table.get(10).unwrap();
    assert_eq!(row.sub.as_deref(), Some("first subject"));
    assert_eq!(row.com.as_deref(), Some("first body"));
    assert_eq!(row.name, "Anonymous");
    assert_eq!(row.sticky, 0);
    assert_eq!(row.tim, None);
    assert_eq!(row.board, "g");
    assert_eq!(row.replies, Some(2));
}

#[test]
fn posts_are_kept_apart_by_number() {
    let mut table = PostTable::new();
    table.save_post(post(1), "g");
    table.save_post(Post { replies: Some(7), ..post(2) }, "g");
    assert_eq!(table.len(), 2);
    assert_eq!(table.get(1).unwrap().replies, Some(1));
    assert_eq!(table.get(2).unwrap().replies, Some(7));
    assert!(table.get(3).is_none());
}

#[test]
fn posts_are_filed_under_their_board() {
    let stored = post(5).filed_under("wg");
    assert_eq!(stored.board, "wg");
    assert_eq!(stored.no, 5);
}

#[test]
fn statement_text() {
    assert_eq!(
        upsert_statement(),
        "INSERT INTO posts (no, resto, sticky, closed, now, time, name, trip, \
         id, capcode, country, country_name, board_flag, flag_name, sub, com, \
         tim, filename, ext, fsize, md5, w, h, tn_w, \
         tn_h, filedeleted, spoiler, custom_spoiler, replies, images, bumplimit, imagelimit, \
         tag, semantic_url, since4pass, unique_ips, m_img, archived, archived_on, board) \
         VALUES (?, ?, ?, ?, ?, ?, ?, ?, ?, ?, ?, ?, ?, ?, ?, ?, ?, ?, ?, ?, \
         ?, ?, ?, ?, ?, ?, ?, ?, ?, ?, ?, ?, ?, ?, ?, ?, ?, ?, ?, ?) \
         ON CONFLICT(no) DO UPDATE SET filedeleted = ?, replies = ?, images = ?, bumplimit = ?, \
         imagelimit = ?, unique_ips = ?, archived = ?, archived_on = ?;"
    );
}

#[test]
fn columns_and_their_names() {
    assert_eq!(columns().len(), 40);
    assert_eq!(columns()[0], Column::No);
    assert_eq!(columns()[39], Column::Board);
    assert_eq!(Column::CountryName.name(), "country_name");
    assert_eq!(
        refreshed_columns(),
        vec![
            Column::Filedeleted,
            Column::Replies,
            Column::Images,
            Column::Bumplimit,
            Column::Imagelimit,
            Column::UniqueIps,
            Column::Archived,
            Column::ArchivedOn
        ]
    );
    assert!(Column::Replies.is_refreshed());
    assert!(!Column::Com.is_refreshed());
    assert_eq!(columns().iter().filter(|c| c.is_refreshed()).count(), 8);
}

#[test]
fn bindings_follow_the_columns() {
    let stored = Post { tim: Some(77), archived_on: Some(9), ..post(10) };
    let values = upsert_bindings(&stored, "g");
    assert_eq!(values.len(), 48);
    assert!(matches!(values[0], SqlValue::Integer(10)));
    assert!(matches!(&values[4], SqlValue::Text(t) if t == "04/15/22(Fri)12:00:00"));
    assert!(matches!(values[7], SqlValue::Null));
    assert!(matches!(&values[14], SqlValue::Text(t) if t == "first subject"));
    assert!(matches!(values[16], SqlValue::Integer(77)));
    assert!(matches!(&values[39], SqlValue::Text(t) if t == "g"));
    assert!(matches!(values[40], SqlValue::Integer(0)));
    assert!(matches!(values[41], SqlValue::Integer(1)));
    assert!(matches!(values[42], SqlValue::Integer(0)));
    assert!(matches!(values[45], SqlValue::Integer(1)));
    assert!(matches!(values[47], SqlValue::Integer(9)));
    assert!(matches!(Column::Tag.value(&stored, "g"), SqlValue::Null));
    assert!(matches!(Column::Board.value(&stored, "wg"), SqlValue::Text(t) if t == "wg"));
}
