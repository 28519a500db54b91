//! The grammar of a bookmark line, stated over sequences of characters.
//!
//! A line is an alias, a separator of one or more blanks, and a path. The
//! alias is the maximal run of non-blank characters at the start of the
//! line. The path is either quoted, the characters between a pair of
//! double quotes, or plain, the maximal run of characters that are neither
//! blank nor `#`. A path that opens with a double quote is always read as
//! quoted. Whatever follows the path is left over and plays no part.

use vstd::prelude::*;
use crate::chars::{run_end, CharClass};

verus! {

/// Why a line holds no bookmark.
#[derive(Clone, Copy, Debug, PartialEq, Eq, Structural)]
pub enum ParseError {
    /// The line is empty or starts with a blank: no alias stands at its start.
    MissingAlias,
    /// Nothing but blanks follows the alias.
    MissingPath,
    /// The quoted form was asked for and the path does not open with `"`.
    MissingQuote,
    /// The path opens with `"` and no second `"` follows.
    UnterminatedQuote,
    /// The path has no characters: a `#` right after the separator, or `""`.
    EmptyPath,
}

impl ParseError {
    /// The reason in words.
    pub open spec fn text(self) -> Seq<char> {
        match self {
            ParseError::MissingAlias => "no alias at the start of the line"@,
            ParseError::MissingPath => "no path after the alias"@,
            ParseError::MissingQuote => "no opening quote before the path"@,
            ParseError::UnterminatedQuote => "no closing quote after the path"@,
            ParseError::EmptyPath => "empty path"@,
        }
    }

    /// The reason in words, for a message to the user.
    pub fn describe(&self) -> (words: &'static str)
        ensures
            words@ == self.text(),
    {
        match self {
            ParseError::MissingAlias => "no alias at the start of the line",
            ParseError::MissingPath => "no path after the alias",
            ParseError::MissingQuote => "no opening quote before the path",
            ParseError::UnterminatedQuote => "no closing quote after the path",
            ParseError::EmptyPath => "empty path",
        }
    }
}

/// An alias and the path it stands for, as texts.
pub struct Entry {
    pub alias: Seq<char>,
    pub path: Seq<char>,
}

/// What a successful parse of a line yields: the bookmark and the rest of
/// the line after the path (after the closing quote of a quoted path).
pub struct Match {
    pub entry: Entry,
    pub rest: Seq<char>,
}

/// Where the alias ends.
pub open spec fn alias_end(s: Seq<char>) -> int {
    run_end(s, 0, CharClass::Word)
}

/// Where the separator after the alias ends and the path starts.
pub open spec fn path_start(s: Seq<char>) -> int {
    run_end(s, alias_end(s), CharClass::Blank)
}

/// What is wrong with the alias and separator of `s`, if anything.
pub open spec fn head_error(s: Seq<char>) -> Option<ParseError> {
    if alias_end(s) == 0 {
        Some(ParseError::MissingAlias)
    } else if path_start(s) >= s.len() {
        Some(ParseError::MissingPath)
    } else {
        None
    }
}

/// The line read with a plain path: the path runs up to the first blank or
/// `#`, and the rest starts there.
pub open spec fn simple_path(s: Seq<char>) -> Result<Match, ParseError> {
    let start = path_start(s);
    let end = run_end(s, start, CharClass::Plain);
    match head_error(s) {
        Some(e) => Err(e),
        None => if end == start {
            Err(ParseError::EmptyPath)
        } else {
            Ok(
                Match {
                    entry: Entry {
                        alias: s.subrange(0, alias_end(s)),
                        path: s.subrange(start, end),
                    },
                    rest: s.subrange(end, s.len() as int),
                },
            )
        },
    }
}

/// The line read with a quoted path: the path is what stands between the
/// double quote at the path's start and the next one, and the rest starts
/// after that closing quote.
pub open spec fn quoted_path(s: Seq<char>) -> Result<Match, ParseError> {
    let open = path_start(s);
    let close = run_end(s, open + 1, CharClass::Quoted);
    match head_error(s) {
        Some(e) => Err(e),
        None => if s[open] != '"' {
            Err(ParseError::MissingQuote)
        } else if close >= s.len() {
            Err(ParseError::UnterminatedQuote)
        } else if close == open + 1 {
            Err(ParseError::EmptyPath)
        } else {
            Ok(
                Match {
                    entry: Entry {
                        alias: s.subrange(0, alias_end(s)),
                        path: s.subrange(open + 1, close),
                    },
                    rest: s.subrange(close + 1, s.len() as int),
                },
            )
        },
    }
}

/// The line read by the full grammar: quoted where the path opens with a
/// double quote, plain otherwise. A quoted path that fails is not read again
/// as a plain one.
pub open spec fn parse(s: Seq<char>) -> Result<Match, ParseError> {
    match head_error(s) {
        Some(e) => Err(e),
        None => if s[path_start(s)] == '"' {
            quoted_path(s)
        } else {
            simple_path(s)
        },
    }
}

/// A comment is a line whose first non-blank character is `#`.
pub open spec fn is_comment(s: Seq<char>) -> bool {
    let first = run_end(s, 0, CharClass::Blank);
    first < s.len() && s[first] == '#'
}

/// The three things a line can be.
pub enum LineKind {
    Comment,
    Malformed,
    Parsed(Entry),
}

/// What a line is: a comment, else a bookmark where the grammar reads one,
/// else malformed. An empty or blank line is malformed.
pub open spec fn classification(s: Seq<char>) -> LineKind {
    if is_comment(s) {
        LineKind::Comment
    } else {
        match parse(s) {
            Ok(m) => LineKind::Parsed(m.entry),
            Err(_) => LineKind::Malformed,
        }
    }
}

} // verus!
