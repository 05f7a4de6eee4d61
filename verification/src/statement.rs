//! The upsert as a statement for a relational store: its text, and the
//! values that are bound to its placeholders.
//!
//! The statement inserts a row with one value for every column. Where a row
//! with the same post number exists, it sets the columns that an upsert
//! refreshes, and those alone.

use crate::post::Post;
use crate::repository::{filed, refreshed};
use crate::text::{join, joined};
use vstd::prelude::*;
use vstd::string::StringExecFns;

verus! {

/// A value bound to a placeholder.
#[derive(Debug)]
pub enum SqlValue {
    Integer(i64),
    Text(String),
    Null,
}

/// A bound value, as contracts speak of it.
pub enum SqlValueView {
    Integer(i64),
    Text(Seq<char>),
    Null,
}

impl SqlValue {
    /// What the value holds.
    pub open spec fn view(&self) -> SqlValueView {
        match *self {
            SqlValue::Integer(n) => SqlValueView::Integer(n),
            SqlValue::Text(text) => SqlValueView::Text(text@),
            SqlValue::Null => SqlValueView::Null,
        }
    }
}

/// The value of an optional number.
pub open spec fn optional_integer(n: Option<i64>) -> SqlValueView {
    match n {
        Some(n) => SqlValueView::Integer(n),
        None => SqlValueView::Null,
    }
}

/// The value of an optional text.
pub open spec fn optional_text(text: Option<String>) -> SqlValueView {
    match text {
        Some(text) => SqlValueView::Text(text@),
        None => SqlValueView::Null,
    }
}

fn integer_or_null(n: Option<i64>) -> (value: SqlValue)
    ensures
        value@ == optional_integer(n),
{
    match n {
        Some(n) => SqlValue::Integer(n),
        None => SqlValue::Null,
    }
}

fn text_or_null(text: &Option<String>) -> (value: SqlValue)
    ensures
        value@ == optional_text(*text),
{
    match text {
        Some(text) => SqlValue::Text(text.clone()),
        None => SqlValue::Null,
    }
}

/// The columns of the table of posts.
#[derive(Debug, Clone, Copy, PartialEq, Eq, Structural)]
pub enum Column {
    No,
    Resto,
    Sticky,
    Closed,
    Now,
    Time,
    Name,
    Trip,
    Id,
    Capcode,
    Country,
    CountryName,
    BoardFlag,
    FlagName,
    Sub,
    Com,
    Tim,
    Filename,
    Ext,
    Fsize,
    Md5,
    W,
    H,
    TnW,
    TnH,
    Filedeleted,
    Spoiler,
    CustomSpoiler,
    Replies,
    Images,
    Bumplimit,
    Imagelimit,
    Tag,
    SemanticUrl,
    Since4pass,
    UniqueIps,
    MImg,
    Archived,
    ArchivedOn,
    Board,
}

impl Column {
    /// The name of the column.
    pub open spec fn spec_name(self) -> Seq<char> {
        match self {
            Column::No => "no"@,
            Column::Resto => "resto"@,
            Column::Sticky => "sticky"@,
            Column::Closed => "closed"@,
            Column::Now => "now"@,
            Column::Time => "time"@,
            Column::Name => "name"@,
            Column::Trip => "trip"@,
            Column::Id => "id"@,
            Column::Capcode => "capcode"@,
            Column::Country => "country"@,
            Column::CountryName => "country_name"@,
            Column::BoardFlag => "board_flag"@,
            Column::FlagName => "flag_name"@,
            Column::Sub => "sub"@,
            Column::Com => "com"@,
            Column::Tim => "tim"@,
            Column::Filename => "filename"@,
            Column::Ext => "ext"@,
            Column::Fsize => "fsize"@,
            Column::Md5 => "md5"@,
            Column::W => "w"@,
            Column::H => "h"@,
            Column::TnW => "tn_w"@,
            Column::TnH => "tn_h"@,
            Column::Filedeleted => "filedeleted"@,
            Column::Spoiler => "spoiler"@,
            Column::CustomSpoiler => "custom_spoiler"@,
            Column::Replies => "replies"@,
            Column::Images => "images"@,
            Column::Bumplimit => "bumplimit"@,
            Column::Imagelimit => "imagelimit"@,
            Column::Tag => "tag"@,
            Column::SemanticUrl => "semantic_url"@,
            Column::Since4pass => "since4pass"@,
            Column::UniqueIps => "unique_ips"@,
            Column::MImg => "m_img"@,
            Column::Archived => "archived"@,
            Column::ArchivedOn => "archived_on"@,
            Column::Board => "board"@,
        }
    }

    /// The name of the column.
    pub fn name(self) -> (name: &'static str)
        ensures
            name@ == self.spec_name(),
    {
        match self {
            Column::No => "no",
            Column::Resto => "resto",
            Column::Sticky => "sticky",
            Column::Closed => "closed",
            Column::Now => "now",
            Column::Time => "time",
            Column::Name => "name",
            Column::Trip => "trip",
            Column::Id => "id",
            Column::Capcode => "capcode",
            Column::Country => "country",
            Column::CountryName => "country_name",
            Column::BoardFlag => "board_flag",
            Column::FlagName => "flag_name",
            Column::Sub => "sub",
            Column::Com => "com",
            Column::Tim => "tim",
            Column::Filename => "filename",
            Column::Ext => "ext",
            Column::Fsize => "fsize",
            Column::Md5 => "md5",
            Column::W => "w",
            Column::H => "h",
            Column::TnW => "tn_w",
            Column::TnH => "tn_h",
            Column::Filedeleted => "filedeleted",
            Column::Spoiler => "spoiler",
            Column::CustomSpoiler => "custom_spoiler",
            Column::Replies => "replies",
            Column::Images => "images",
            Column::Bumplimit => "bumplimit",
            Column::Imagelimit => "imagelimit",
            Column::Tag => "tag",
            Column::SemanticUrl => "semantic_url",
            Column::Since4pass => "since4pass",
            Column::UniqueIps => "unique_ips",
            Column::MImg => "m_img",
            Column::Archived => "archived",
            Column::ArchivedOn => "archived_on",
            Column::Board => "board",
        }
    }

    /// Whether an upsert that meets a stored post writes the column.
    pub open spec fn spec_is_refreshed(self) -> bool {
        match self {
            Column::Filedeleted | Column::Replies | Column::Images | Column::Bumplimit
            | Column::Imagelimit | Column::UniqueIps | Column::Archived | Column::ArchivedOn => true,
            _ => false,
        }
    }

    /// Whether an upsert that meets a stored post writes the column.
    pub fn is_refreshed(self) -> (written: bool)
        ensures
            written == self.spec_is_refreshed(),
    {
        match self {
            Column::Filedeleted | Column::Replies | Column::Images | Column::Bumplimit
            | Column::Imagelimit | Column::UniqueIps | Column::Archived | Column::ArchivedOn => true,
            _ => false,
        }
    }

    /// The value of the column for `post`, a post of `board`.
    pub open spec fn spec_value(self, post: Post, board: Seq<char>) -> SqlValueView {
        match self {
            Column::No => SqlValueView::Integer(post.no),
            Column::Resto => SqlValueView::Integer(post.resto),
            Column::Sticky => SqlValueView::Integer(post.sticky),
            Column::Closed => SqlValueView::Integer(post.closed),
            Column::Now => SqlValueView::Text(post.now@),
            Column::Time => SqlValueView::Integer(post.time),
            Column::Name => SqlValueView::Text(post.name@),
            Column::Trip => optional_text(post.trip),
            Column::Id => optional_text(post.id),
            Column::Capcode => optional_text(post.capcode),
            Column::Country => optional_text(post.country),
            Column::CountryName => optional_text(post.country_name),
            Column::BoardFlag => optional_text(post.board_flag),
            Column::FlagName => optional_text(post.flag_name),
            Column::Sub => optional_text(post.sub),
            Column::Com => optional_text(post.com),
            Column::Tim => optional_integer(post.tim),
            Column::Filename => optional_text(post.filename),
            Column::Ext => optional_text(post.ext),
            Column::Fsize => optional_integer(post.fsize),
            Column::Md5 => optional_text(post.md5),
            Column::W => optional_integer(post.w),
            Column::H => optional_integer(post.h),
            Column::TnW => optional_integer(post.tn_w),
            Column::TnH => optional_integer(post.tn_h),
            Column::Filedeleted => SqlValueView::Integer(post.filedeleted),
            Column::Spoiler => SqlValueView::Integer(post.spoiler),
            Column::CustomSpoiler => optional_integer(post.custom_spoiler),
            Column::Replies => optional_integer(post.replies),
            Column::Images => optional_integer(post.images),
            Column::Bumplimit => SqlValueView::Integer(post.bumplimit),
            Column::Imagelimit => SqlValueView::Integer(post.imagelimit),
            Column::Tag => optional_text(post.tag),
            Column::SemanticUrl => optional_text(post.semantic_url),
            Column::Since4pass => optional_integer(post.since4pass),
            Column::UniqueIps => optional_integer(post.unique_ips),
            Column::MImg => SqlValueView::Integer(post.m_img),
            Column::Archived => SqlValueView::Integer(post.archived),
            Column::ArchivedOn => optional_integer(post.archived_on),
            Column::Board => SqlValueView::Text(board),
        }
    }

    /// The value of the column for `post`, a post of `board`.
    pub fn value(self, post: &Post, board: &str) -> (value: SqlValue)
        ensures
            value@ == self.spec_value(*post, board@),
    {
        match self {
            Column::No => SqlValue::Integer(post.no),
            Column::Resto => SqlValue::Integer(post.resto),
            Column::Sticky => SqlValue::Integer(post.sticky),
            Column::Closed => SqlValue::Integer(post.closed),
            Column::Now => SqlValue::Text(post.now.clone()),
            Column::Time => SqlValue::Integer(post.time),
            Column::Name => SqlValue::Text(post.name.clone()),
            Column::Trip => text_or_null(&post.trip),
            Column::Id => text_or_null(&post.id),
            Column::Capcode => text_or_null(&post.capcode),
            Column::Country => text_or_null(&post.country),
            Column::CountryName => text_or_null(&post.country_name),
            Column::BoardFlag => text_or_null(&post.board_flag),
            Column::FlagName => text_or_null(&post.flag_name),
            Column::Sub => text_or_null(&post.sub),
            Column::Com => text_or_null(&post.com),
            Column::Tim => integer_or_null(post.tim),
            Column::Filename => text_or_null(&post.filename),
            Column::Ext => text_or_null(&post.ext),
            Column::Fsize => integer_or_null(post.fsize),
            Column::Md5 => text_or_null(&post.md5),
            Column::W => integer_or_null(post.w),
            Column::H => integer_or_null(post.h),
            Column::TnW => integer_or_null(post.tn_w),
            Column::TnH => integer_or_null(post.tn_h),
            Column::Filedeleted => SqlValue::Integer(post.filedeleted),
            Column::Spoiler => SqlValue::Integer(post.spoiler),
            Column::CustomSpoiler => integer_or_null(post.custom_spoiler),
            Column::Replies => integer_or_null(post.replies),
            Column::Images => integer_or_null(post.images),
            Column::Bumplimit => SqlValue::Integer(post.bumplimit),
            Column::Imagelimit => SqlValue::Integer(post.imagelimit),
            Column::Tag => text_or_null(&post.tag),
            Column::SemanticUrl => text_or_null(&post.semantic_url),
            Column::Since4pass => integer_or_null(post.since4pass),
            Column::UniqueIps => integer_or_null(post.unique_ips),
            Column::MImg => SqlValue::Integer(post.m_img),
            Column::Archived => SqlValue::Integer(post.archived),
            Column::ArchivedOn => integer_or_null(post.archived_on),
            Column::Board => SqlValue::Text(board.to_owned()),
        }
    }
}

/// All columns, in the order in which a row is inserted.
pub open spec fn spec_columns() -> Seq<Column> {
    seq![
        Column::No, Column::Resto, Column::Sticky, Column::Closed,
        Column::Now, Column::Time, Column::Name, Column::Trip,
        Column::Id, Column::Capcode, Column::Country, Column::CountryName,
        Column::BoardFlag, Column::FlagName, Column::Sub, Column::Com,
        Column::Tim, Column::Filename, Column::Ext, Column::Fsize,
        Column::Md5, Column::W, Column::H, Column::TnW,
        Column::TnH, Column::Filedeleted, Column::Spoiler, Column::CustomSpoiler,
        Column::Replies, Column::Images, Column::Bumplimit, Column::Imagelimit,
        Column::Tag, Column::SemanticUrl, Column::Since4pass, Column::UniqueIps,
        Column::MImg, Column::Archived, Column::ArchivedOn, Column::Board,
    ]
}

/// The columns that an upsert refreshes, in the order in which the
/// statement sets them.
pub open spec fn spec_refreshed_columns() -> Seq<Column> {
    seq![
        Column::Filedeleted, Column::Replies, Column::Images, Column::Bumplimit,
        Column::Imagelimit, Column::UniqueIps, Column::Archived, Column::ArchivedOn,
    ]
}

/// All columns, in the order in which a row is inserted.
pub fn columns() -> (all: Vec<Column>)
    ensures
        all@ == spec_columns(),
{
    let mut all: Vec<Column> = Vec::new();
    all.push(Column::No);
    all.push(Column::Resto);
    all.push(Column::Sticky);
    all.push(Column::Closed);
    all.push(Column::Now);
    all.push(Column::Time);
    all.push(Column::Name);
    all.push(Column::Trip);
    all.push(Column::Id);
    all.push(Column::Capcode);
    all.push(Column::Country);
    all.push(Column::CountryName);
    all.push(Column::BoardFlag);
    all.push(Column::FlagName);
    all.push(Column::Sub);
    all.push(Column::Com);
    all.push(Column::Tim);
    all.push(Column::Filename);
    all.push(Column::Ext);
    all.push(Column::Fsize);
    all.push(Column::Md5);
    all.push(Column::W);
    all.push(Column::H);
    all.push(Column::TnW);
    all.push(Column::TnH);
    all.push(Column::Filedeleted);
    all.push(Column::Spoiler);
    all.push(Column::CustomSpoiler);
    all.push(Column::Replies);
    all.push(Column::Images);
    all.push(Column::Bumplimit);
    all.push(Column::Imagelimit);
    all.push(Column::Tag);
    all.push(Column::SemanticUrl);
    all.push(Column::Since4pass);
    all.push(Column::UniqueIps);
    all.push(Column::MImg);
    all.push(Column::Archived);
    all.push(Column::ArchivedOn);
    all.push(Column::Board);
    all
}

/// The columns that an upsert refreshes, in the order in which the
/// statement sets them.
pub fn refreshed_columns() -> (written: Vec<Column>)
    ensures
        written@ == spec_refreshed_columns(),
{
    let mut written: Vec<Column> = Vec::new();
    written.push(Column::Filedeleted);
    written.push(Column::Replies);
    written.push(Column::Images);
    written.push(Column::Bumplimit);
    written.push(Column::Imagelimit);
    written.push(Column::UniqueIps);
    written.push(Column::Archived);
    written.push(Column::ArchivedOn);
    written
}

/// The values of `columns` for `post`, a post of `board`, in order.
pub open spec fn spec_values(columns: Seq<Column>, post: Post, board: Seq<char>) -> Seq<
    SqlValueView,
> {
    columns.map_values(|c: Column| c.spec_value(post, board))
}

/// What a list of bound values holds.
pub open spec fn value_views(values: Seq<SqlValue>) -> Seq<SqlValueView> {
    values.map_values(|v: SqlValue| v@)
}

/// The values bound to the statement for `post`, a post of `board`: one
/// for every column, and then one for every refreshed column.
pub open spec fn spec_upsert_bindings(post: Post, board: Seq<char>) -> Seq<SqlValueView> {
    spec_values(spec_columns(), post, board) + spec_values(spec_refreshed_columns(), post, board)
}

/// The values to bind to the placeholders of [`upsert_statement`], in
/// order, to upsert `post` as a post of `board`.
pub fn upsert_bindings(post: &Post, board: &str) -> (values: Vec<SqlValue>)
    ensures
        value_views(values@) == spec_upsert_bindings(*post, board@),
{
    let all = columns();
    let written = refreshed_columns();
    let mut values: Vec<SqlValue> = Vec::new();
    let mut i: usize = 0;
    while i < all.len()
        invariant
            i <= all@.len(),
            all@ == spec_columns(),
            value_views(values@) == spec_values(all@.take(i as int), *post, board@),
        decreases all@.len() - i,
    {
        values.push(all[i].value(post, board));
        proof {
            assert(spec_values(all@.take(i + 1), *post, board@) =~= spec_values(
                all@.take(i as int),
                *post,
                board@,
            ).push(all@[i as int].spec_value(*post, board@)));
        }
        i += 1;
    }
    let ghost inserted = values@;
    let mut j: usize = 0;
    while j < written.len()
        invariant
            j <= written@.len(),
            written@ == spec_refreshed_columns(),
            value_views(values@) == value_views(inserted) + spec_values(
                written@.take(j as int),
                *post,
                board@,
            ),
        decreases written@.len() - j,
    {
        let ghost before = values@;
        values.push(written[j].value(post, board));
        proof {
            assert(value_views(values@) =~= value_views(before).push(
                written@[j as int].spec_value(*post, board@),
            ));
        }
        j += 1;
    }
    values
}

/// The names of `columns`, in order.
pub open spec fn column_names(columns: Seq<Column>) -> Seq<Seq<char>> {
    columns.map_values(|c: Column| c.spec_name())
}

/// One placeholder for each of `columns`.
pub open spec fn placeholders(columns: Seq<Column>) -> Seq<Seq<char>> {
    columns.map_values(|c: Column| "?"@)
}

/// For each of `columns` the assignment of a placeholder to it.
pub open spec fn assignments(columns: Seq<Column>) -> Seq<Seq<char>> {
    columns.map_values(|c: Column| c.spec_name() + " = ?"@)
}

/// The text of the upsert.
pub open spec fn spec_upsert_statement() -> Seq<char> {
    "INSERT INTO posts ("@ + joined(column_names(spec_columns()), ", "@) + ") VALUES ("@ + joined(
        placeholders(spec_columns()),
        ", "@,
    ) + ") ON CONFLICT(no) DO UPDATE SET "@ + joined(
        assignments(spec_refreshed_columns()),
        ", "@,
    ) + ";"@
}

/// The text of the upsert: an insert of all columns which, where the post
/// number is taken, sets the refreshed columns instead.
pub fn upsert_statement() -> (statement: String)
    ensures
        statement@ == spec_upsert_statement(),
{
    let all = columns();
    let written = refreshed_columns();
    let mut names: Vec<String> = Vec::new();
    let mut marks: Vec<String> = Vec::new();
    let mut i: usize = 0;
    while i < all.len()
        invariant
            i <= all@.len(),
            crate::storage::texts(names@) == column_names(all@.take(i as int)),
            crate::storage::texts(marks@) == placeholders(all@.take(i as int)),
        decreases all@.len() - i,
    {
        let ghost marks_before = marks@;
        names.push(all[i].name().to_owned());
        marks.push("?".to_owned());
        proof {
            assert(crate::storage::texts(marks@) =~= crate::storage::texts(marks_before).push(
                "?"@,
            ));
            assert(column_names(all@.take(i + 1)) =~= column_names(all@.take(i as int)).push(
                all@[i as int].spec_name(),
            ));
        }
        i += 1;
    }
    assert(all@.take(i as int) =~= all@);
    let mut sets: Vec<String> = Vec::new();
    let mut j: usize = 0;
    while j < written.len()
        invariant
            j <= written@.len(),
            crate::storage::texts(sets@) == assignments(written@.take(j as int)),
        decreases written@.len() - j,
    {
        let mut set = written[j].name().to_owned();
        set.append(" = ?");
        sets.push(set);
        proof {
            assert(assignments(written@.take(j + 1)) =~= assignments(written@.take(j as int)).push(
                written@[j as int].spec_name() + " = ?"@,
            ));
        }
        j += 1;
    }
    assert(written@.take(j as int) =~= written@);
    let mut statement = "INSERT INTO posts (".to_owned();
    statement.append(join(&names, ", ").as_str());
    statement.append(") VALUES (");
    statement.append(join(&marks, ", ").as_str());
    statement.append(") ON CONFLICT(no) DO UPDATE SET ");
    statement.append(join(&sets, ", ").as_str());
    statement.append(";");
    statement
}

/// The statement has as many placeholders as there are values to bind.
pub proof fn lemma_bindings_fill_statement(post: Post, board: Seq<char>)
    ensures
        spec_upsert_bindings(post, board).len() == placeholders(spec_columns()).len()
            + assignments(spec_refreshed_columns()).len(),
        spec_upsert_bindings(post, board).len() == 48,
{
}

/// The statement sets exactly the columns that an upsert refreshes: the
/// columns it sets are those that [`Column::spec_is_refreshed`] names, and
/// in a refreshed post each of them has the value of the incoming post and
/// every other column the stored value.
pub proof fn lemma_statement_refreshes(
    stored: Post,
    incoming: Post,
    board: Seq<char>,
    column: Column,
)
    ensures
        spec_refreshed_columns().contains(column) <==> column.spec_is_refreshed(),
        column.spec_value(refreshed(stored, incoming), board) == if column.spec_is_refreshed() {
            column.spec_value(incoming, board)
        } else {
            column.spec_value(stored, board)
        },
        !(column.spec_is_refreshed() && column == Column::Board),
{
    let written = spec_refreshed_columns();
    if column.spec_is_refreshed() {
    }
}

/// The values that are bound for a post of a board are the values of the
/// post as the table of posts files it under that board.
pub proof fn lemma_bindings_file_the_post(post: Post, stored: Post, board: Seq<char>, column: Column)
    requires
        filed(post, stored, board),
    ensures
        column.spec_value(post, board) == column.spec_value(stored, stored.board@),
{
}

} // verus!
