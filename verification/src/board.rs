//! The board's config: a title, a description and an author, read from a
//! key-value TOML document. Unknown keys are ignored; a missing required key
//! is an error of its own.

use vstd::prelude::*;
use crate::bindings;

verus! {

/// The config metadata of a board.
#[derive(Debug)]
pub struct Board {
    pub title: String,
    pub description: String,
    pub author: String,
}

/// The mathematical content of a [`Board`].
pub struct BoardView {
    pub title: Seq<char>,
    pub description: Seq<char>,
    pub author: Seq<char>,
}

impl View for Board {
    type V = BoardView;

    open spec fn view(&self) -> BoardView {
        BoardView { title: self.title@, description: self.description@, author: self.author@ }
    }
}

/// Why a config document was rejected.
#[derive(Clone, Copy, Debug, PartialEq, Eq, Structural)]
pub enum ConfigError {
    Syntax,
    MissingTitle,
    MissingDescription,
    MissingAuthor,
}

/// The value of the first entry whose key is `key`: `None` when no entry
/// has that key or when its value is not a string.
pub open spec fn lookup_key(
    entries: Seq<(Seq<char>, Option<Seq<char>>)>,
    key: Seq<char>,
) -> Option<Seq<char>>
    decreases entries.len(),
{
    if entries.len() == 0 {
        None
    } else if entries[0].0 == key {
        entries[0].1
    } else {
        lookup_key(entries.drop_first(), key)
    }
}

/// The board described by the entries of a config table, or the error for
/// the first required key (title, then description, then author) that is
/// absent or not a string.
pub open spec fn board_of_entries(entries: Seq<(Seq<char>, Option<Seq<char>>)>) -> Result<
    BoardView,
    ConfigError,
> {
    if lookup_key(entries, "title"@) is None {
        Err(ConfigError::MissingTitle)
    } else if lookup_key(entries, "description"@) is None {
        Err(ConfigError::MissingDescription)
    } else if lookup_key(entries, "author"@) is None {
        Err(ConfigError::MissingAuthor)
    } else {
        Ok(
            BoardView {
                title: lookup_key(entries, "title"@).unwrap(),
                description: lookup_key(entries, "description"@).unwrap(),
                author: lookup_key(entries, "author"@).unwrap(),
            },
        )
    }
}

/// The board described by the config document `s`: a syntax error when `s`
/// is not valid TOML, and otherwise [`board_of_entries`] of its table.
pub open spec fn parse_board(s: Seq<char>) -> Result<BoardView, ConfigError> {
    match bindings::toml_string_entries(s) {
        None => Err(ConfigError::Syntax),
        Some(entries) => board_of_entries(entries),
    }
}

proof fn lemma_lookup_skip(entries: Seq<(Seq<char>, Option<Seq<char>>)>, key: Seq<char>, j: int)
    requires
        0 <= j <= entries.len(),
        forall|k: int| 0 <= k < j ==> (#[trigger] entries[k]).0 != key,
    ensures
        lookup_key(entries, key) == lookup_key(entries.skip(j), key),
    decreases j,
{
    if j > 0 {
        assert(entries.drop_first() =~= entries.skip(1));
        lemma_lookup_skip(entries.drop_first(), key, j - 1);
        assert(entries.drop_first().skip(j - 1) =~= entries.skip(j));
    } else {
        assert(entries.skip(0) =~= entries);
    }
}

/// The value of the first entry of `entries` whose key reads `key` and
/// holds a string, exactly as [`lookup_key`] gives it.
fn find_string(entries: &Vec<(String, Option<String>)>, key: &str) -> (r: Option<String>)
    ensures
        r.deep_view() == lookup_key(entries.deep_view(), key@),
{
    let mut j: usize = 0;
    while j < entries.len()
        invariant
            j <= entries@.len(),
            forall|k: int| 0 <= k < j ==> (#[trigger] entries.deep_view()[k]).0 != key@,
        decreases entries@.len() - j,
    {
        if str_eq(entries[j].0.as_str(), key) {
            proof {
                let ed = entries.deep_view();
                lemma_lookup_skip(ed, key@, j as int);
                assert(ed.skip(j as int).len() > 0);
                assert(ed.skip(j as int)[0] == ed[j as int]);
                assert(lookup_key(ed.skip(j as int), key@) == ed[j as int].1);
            }
            let found = match &entries[j].1 {
                Some(value) => Some(value.clone()),
                None => None,
            };
            return found;
        }
        j += 1;
    }
    proof {
        let ed = entries.deep_view();
        lemma_lookup_skip(ed, key@, ed.len() as int);
        assert(ed.skip(ed.len() as int) =~= Seq::<(Seq<char>, Option<Seq<char>>)>::empty());
    }
    None
}

/// Whether two pieces of text read the same.
fn str_eq(a: &str, b: &str) -> (r: bool)
    ensures
        r == (a@ == b@),
{
    let owned_a = a.to_owned();
    let owned_b = b.to_owned();
    owned_a.eq(&owned_b)
}

impl Board {
    /// The default board: the config a fresh directory starts from.
    pub fn template() -> (r: Board)
        ensures
            r@ == (BoardView {
                title: "My cool project"@,
                description: "Insert description here"@,
                author: "Anonymous"@,
            }),
    {
        Board {
            title: "My cool project".to_owned(),
            description: "Insert description here".to_owned(),
            author: "Anonymous".to_owned(),
        }
    }

    /// Read a board from the text of a config document: exactly
    /// [`parse_board`] of it.
    pub fn from_toml(s: &str) -> (r: Result<Board, ConfigError>)
        ensures
            match r {
                Ok(board) => parse_board(s@) == Ok::<BoardView, ConfigError>(board@),
                Err(e) => parse_board(s@) == Err::<BoardView, ConfigError>(e),
            },
    {
        let entries = match bindings::parse_toml_entries(s) {
            Some(entries) => entries,
            None => {
                return Err(ConfigError::Syntax);
            },
        };
        let title = match find_string(&entries, "title") {
            Some(value) => value,
            None => {
                return Err(ConfigError::MissingTitle);
            },
        };
        let description = match find_string(&entries, "description") {
            Some(value) => value,
            None => {
                return Err(ConfigError::MissingDescription);
            },
        };
        let author = match find_string(&entries, "author") {
            Some(value) => value,
            None => {
                return Err(ConfigError::MissingAuthor);
            },
        };
        Ok(Board { title, description, author })
    }
}

} // verus!
