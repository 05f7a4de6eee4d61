//! What is archived: the configured boards and, for each, how much of its
//! media is kept and which threads its filters let through.

use crate::error::ArchiveError;
use regex::RegexBuilder;
use vstd::prelude::*;

verus! {

/// Whether full-size media is kept where the configuration does not say.
pub fn full_media_default() -> (keep: bool)
    ensures
        keep,
{
    true
}

/// Whether the filters are inverted where the configuration does not say.
pub fn reverse_filter_default() -> (inverted: bool)
    ensures
        !inverted,
{
    false
}

/// `regex::Error`, the error of a pattern that does not compile. It is
/// declared so that [`search`] can hand it out; nothing is known of its
/// values.
#[verifier::external_type_specification]
#[verifier::external_body]
pub struct ExRegexError(regex::Error);

/// Whether the regex crate compiles `pattern`, case-insensitively and with
/// its other settings at their defaults.
pub uninterp spec fn regex_compiles(pattern: Seq<char>) -> bool;

/// Whether the regular expression compiled from `pattern`, as
/// [`regex_compiles`] says, finds a match anywhere in `text`.
pub uninterp spec fn regex_accepts(pattern: Seq<char>, text: Seq<char>) -> bool;

/// Compiles `pattern` with `regex::RegexBuilder::new`, `case_insensitive`
/// and `build`, and asks the compiled expression through
/// `regex::Regex::is_match` whether `text` holds a match. The pattern is
/// compiled at every call, so that the contract rests on the two texts
/// alone. It names both outcomes: whether the pattern compiles is decided by
/// the pattern, and whether a compiled pattern matches by the pattern and
/// the text.
#[verifier::external_body]
fn search(pattern: &str, text: &str) -> (found: Result<bool, regex::Error>)
    ensures
        found is Ok <==> regex_compiles(pattern@),
        found matches Ok(hit) ==> hit == regex_accepts(pattern@, text@),
{
    let compiled = RegexBuilder::new(pattern).case_insensitive(true).build()?;
    Ok(compiled.is_match(text))
}

/// A filter: a regular expression that is matched without regard to case.
#[derive(Debug)]
pub struct CustomRegex {
    pattern: String,
}

impl Clone for CustomRegex {
    fn clone(&self) -> (copy: Self)
        ensures
            copy@ == self@,
    {
        proof {
            use_type_invariant(self);
        }
        CustomRegex { pattern: self.pattern.clone() }
    }
}

impl CustomRegex {
    /// Every filter holds a pattern that compiles.
    #[verifier::type_invariant]
    spec fn compiles(self) -> bool {
        regex_compiles(self.pattern@)
    }

    /// The pattern of the filter.
    pub closed spec fn view(&self) -> Seq<char> {
        self.pattern@
    }

    /// The filter for `pattern`; a configuration error where `pattern` is no
    /// regular expression.
    pub fn new(pattern: &str) -> (filter: Result<CustomRegex, ArchiveError>)
        ensures
            filter is Ok <==> regex_compiles(pattern@),
            filter matches Ok(f) ==> f@ == pattern@,
            filter matches Err(e) ==> e == ArchiveError::Configuration,
    {
        match search(pattern, "") {
            Ok(_) => Ok(CustomRegex { pattern: pattern.to_owned() }),
            Err(_) => Err(ArchiveError::Configuration),
        }
    }

    /// The pattern of the filter.
    pub fn pattern(&self) -> (pattern: &str)
        ensures
            pattern@ == self@,
    {
        self.pattern.as_str()
    }

    /// Whether the filter matches anywhere in `text`.
    pub fn is_match(&self, text: &str) -> (hit: bool)
        ensures
            hit == regex_accepts(self@, text@),
    {
        proof {
            use_type_invariant(self);
        }
        match search(self.pattern.as_str(), text) {
            Ok(hit) => hit,
            Err(_) => false,
        }
    }
}

/// How one board is archived.
#[derive(Debug, Clone)]
pub struct BoardConfig {
    /// Keep full-size media; thumbnails alone where this is `false`.
    pub full_media: bool,
    /// The filters, in the order in which they are tried.
    pub filters: Vec<CustomRegex>,
    /// Whether the filters are tried on the body of the opening post too,
    /// and not on its subject alone.
    pub filter_comment: bool,
    /// Whether a thread is kept where a filter matches (`true`) or where
    /// none does (`false`).
    pub reverse_filter: bool,
}

/// Whether every pattern of a list compiles.
pub open spec fn all_compile(patterns: Seq<Seq<char>>) -> bool {
    forall|i: int| 0 <= i < patterns.len() ==> regex_compiles(#[trigger] patterns[i])
}

impl BoardConfig {
    /// The settings of a board with these filters, each given as its
    /// pattern; a configuration error where one of them is no regular
    /// expression.
    pub fn with_filters(
        full_media: bool,
        patterns: &Vec<String>,
        filter_comment: bool,
        reverse_filter: bool,
    ) -> (config: Result<BoardConfig, ArchiveError>)
        ensures
            config is Ok <==> all_compile(patterns@.map_values(|p: String| p@)),
            config matches Ok(c) ==> {
                &&& c.full_media == full_media
                &&& c.filter_comment == filter_comment
                &&& c.reverse_filter == reverse_filter
                &&& c.filters@.map_values(|f: CustomRegex| f@) == patterns@.map_values(
                    |p: String| p@,
                )
            },
            config matches Err(e) ==> e == ArchiveError::Configuration,
    {
        let ghost wanted = patterns@.map_values(|p: String| p@);
        let mut filters: Vec<CustomRegex> = Vec::new();
        let mut i: usize = 0;
        while i < patterns.len()
            invariant
                i <= patterns@.len(),
                wanted == patterns@.map_values(|p: String| p@),
                filters@.map_values(|f: CustomRegex| f@) == wanted.take(i as int),
                forall|j: int| 0 <= j < i ==> regex_compiles(#[trigger] wanted[j]),
            decreases patterns@.len() - i,
        {
            assert(wanted[i as int] == patterns@[i as int]@);
            match CustomRegex::new(patterns[i].as_str()) {
                Ok(filter) => {
                    let ghost before = filters@.map_values(|f: CustomRegex| f@);
                    filters.push(filter);
                    assert(filters@.map_values(|f: CustomRegex| f@) =~= before.push(filter@));
                    assert(wanted.take(i + 1) =~= wanted.take(i as int).push(wanted[i as int]));
                },
                Err(e) => {
                    return Err(e);
                },
            }
            i += 1;
        }
        assert(wanted.take(i as int) =~= wanted);
        Ok(BoardConfig { full_media, filters, filter_comment, reverse_filter })
    }

    /// The settings of a board that the configuration only names: all
    /// media, no filters.
    pub fn new() -> (config: BoardConfig)
        ensures
            config.full_media,
            config.filters@.len() == 0,
            !config.filter_comment,
            !config.reverse_filter,
    {
        BoardConfig {
            full_media: full_media_default(),
            filters: Vec::new(),
            filter_comment: false,
            reverse_filter: reverse_filter_default(),
        }
    }
}

/// The configured boards, each under its name. No name occurs twice, and
/// the boards are archived in the order in which they were added.
#[derive(Debug)]
pub struct Config {
    names: Vec<String>,
    boards: Vec<BoardConfig>,
}

/// Whether no two entries of `names` are the same text.
pub open spec fn distinct_names(names: Seq<Seq<char>>) -> bool {
    forall|i: int, j: int| 0 <= i < j < names.len() ==> names[i] != names[j]
}

impl Config {
    #[verifier::type_invariant]
    spec fn paired(self) -> bool {
        &&& self.names@.len() == self.boards@.len()
        &&& distinct_names(self.names@.map_values(|n: String| n@))
    }

    /// The names of the configured boards, in order.
    pub closed spec fn names(&self) -> Seq<Seq<char>> {
        self.names@.map_values(|n: String| n@)
    }

    /// The settings of the configured boards, in the order of their names.
    pub closed spec fn boards(&self) -> Seq<BoardConfig> {
        self.boards@
    }

    /// What holds of every configuration: one entry of settings for each
    /// name, and no name twice.
    pub open spec fn wf(&self) -> bool {
        &&& self.names().len() == self.boards().len()
        &&& distinct_names(self.names())
    }

    /// A configuration without boards.
    pub fn new() -> (config: Config)
        ensures
            config.names().len() == 0,
            config.boards().len() == 0,
    {
        Config { names: Vec::new(), boards: Vec::new() }
    }

    /// The number of configured boards.
    pub fn len(&self) -> (n: usize)
        ensures
            n == self.names().len(),
            self.wf(),
    {
        proof {
            use_type_invariant(self);
        }
        self.names.len()
    }

    /// The name of the board at position `i`.
    pub fn name(&self, i: usize) -> (name: &str)
        requires
            i < self.names().len(),
        ensures
            name@ == self.names()[i as int],
    {
        self.names[i].as_str()
    }

    /// The settings of the board at position `i`.
    pub fn board(&self, i: usize) -> (board: &BoardConfig)
        requires
            i < self.boards().len(),
        ensures
            *board == self.boards()[i as int],
    {
        &self.boards[i]
    }

    /// The position of the board named `name`.
    pub fn position(&self, name: &str) -> (at: Option<usize>)
        ensures
            at matches Some(i) ==> i < self.names().len() && self.names()[i as int] == name@,
            at is None ==> forall|i: int| 0 <= i < self.names().len() ==> self.names()[i] != name@,
    {
        let wanted = name.to_owned();
        let mut i: usize = 0;
        while i < self.names.len()
            invariant
                i <= self.names@.len(),
                wanted@ == name@,
                forall|j: int| 0 <= j < i ==> self.names()[j] != name@,
            decreases self.names@.len() - i,
        {
            if self.names[i] == wanted {
                return Some(i);
            }
            i += 1;
        }
        None
    }

    /// This configuration with the board `name` configured as `board`.
    /// Where the name is configured already, its settings are replaced and
    /// it keeps its place; otherwise the board is added after all others.
    pub fn insert(self, name: &str, board: BoardConfig) -> (config: Config)
        ensures
            match self.spec_position(name@) {
                Some(i) => {
                    &&& config.names() == self.names()
                    &&& config.boards() == self.boards().update(i, board)
                },
                None => {
                    &&& config.names() == self.names().push(name@)
                    &&& config.boards() == self.boards().push(board)
                },
            },
    {
        proof {
            use_type_invariant(&self);
        }
        let at = self.position(name);
        let ghost before = self.names();
        let Config { mut names, mut boards } = self;
        match at {
            Some(i) => {
                assert(self.spec_position(name@) == Some(i as int)) by {
                    let chosen = self.spec_position(name@);
                }
                boards.set(i, board);
            },
            None => {
                names.push(name.to_owned());
                boards.push(board);
                assert(names@.map_values(|n: String| n@) =~= before.push(name@));
            },
        }
        Config { names, boards }
    }

    /// The position at which `name` is configured, if it is.
    pub open spec fn spec_position(&self, name: Seq<char>) -> Option<int> {
        if exists|i: int| 0 <= i < self.names().len() && self.names()[i] == name {
            Some(choose|i: int| 0 <= i < self.names().len() && self.names()[i] == name)
        } else {
            None
        }
    }
}

} // verus!
