//! The line parser: from one line of text to a bookmark, or to the reason
//! why it holds none.

use vstd::prelude::*;
use crate::chars::{lemma_run_end_bounds, scan, CharClass};
use crate::grammar::{
    alias_end, classification, head_error, is_comment, parse, path_start, quoted_path,
    simple_path, Entry, LineKind, Match, ParseError,
};
use crate::text::to_chars;

verus! {

/// An alias and its directory path, borrowed from the line they stand on.
#[derive(Clone, Copy, Debug, PartialEq, Eq)]
pub struct Bookmark<'a> {
    pub alias: &'a str,
    pub path: &'a str,
}

impl<'a> View for Bookmark<'a> {
    type V = Entry;

    open spec fn view(&self) -> Entry {
        Entry { alias: self.alias@, path: self.path@ }
    }
}

/// A line after classification.
#[derive(Clone, Copy, Debug, PartialEq, Eq)]
pub enum Line<'a> {
    /// A comment: to be skipped.
    Comment,
    /// Neither a comment nor a bookmark; holds the line's text.
    Malformed(&'a str),
    /// A bookmark.
    Parsed(Bookmark<'a>),
}

impl<'a> View for Line<'a> {
    type V = LineKind;

    open spec fn view(&self) -> LineKind {
        match *self {
            Line::Comment => LineKind::Comment,
            Line::Malformed(_) => LineKind::Malformed,
            Line::Parsed(b) => LineKind::Parsed(b@),
        }
    }
}

/// Whether a parser's outcome is the one the grammar gives.
pub open spec fn agrees<'a>(
    got: Result<(&'a str, Bookmark<'a>), ParseError>,
    want: Result<Match, ParseError>,
) -> bool {
    match (got, want) {
        (Ok((rest, b)), Ok(m)) => b@ == m.entry && rest@ == m.rest,
        (Err(e), Err(f)) => e == f,
        _ => false,
    }
}

/// Scans alias and separator and returns where the alias ends and where
/// the path starts.
fn head(chars: &Vec<char>) -> (r: Result<(usize, usize), ParseError>)
    ensures
        match r {
            Ok((a, p)) => head_error(chars@) is None && a == alias_end(chars@) && p == path_start(
                chars@,
            ) && 0 < a < p < chars.len(),
            Err(e) => head_error(chars@) == Some(e),
        },
{
    let a = scan(chars, 0, CharClass::Word);
    if a == 0 {
        return Err(ParseError::MissingAlias);
    }
    let p = scan(chars, a, CharClass::Blank);
    if p >= chars.len() {
        return Err(ParseError::MissingPath);
    }
    proof {
        lemma_run_end_bounds(chars@, 0, CharClass::Word);
        lemma_run_end_bounds(chars@, a + 1, CharClass::Blank);
    }
    Ok((a, p))
}

/// Reads a plain path that starts at `p`.
fn plain_tail<'a>(input: &'a str, chars: &Vec<char>, a: usize, p: usize) -> (r: Result<
    (&'a str, Bookmark<'a>),
    ParseError,
>)
    requires
        chars@ == input@,
        head_error(chars@) is None,
        a == alias_end(chars@),
        p == path_start(chars@),
        0 < a < p < chars.len(),
    ensures
        agrees(r, simple_path(input@)),
{
    let end = scan(chars, p, CharClass::Plain);
    if end == p {
        return Err(ParseError::EmptyPath);
    }
    let alias = input.substring_char(0, a);
    let path = input.substring_char(p, end);
    let rest = input.substring_char(end, chars.len());
    Ok((rest, Bookmark { alias, path }))
}

/// Reads a quoted path whose opening quote is expected at `p`.
fn quoted_tail<'a>(input: &'a str, chars: &Vec<char>, a: usize, p: usize) -> (r: Result<
    (&'a str, Bookmark<'a>),
    ParseError,
>)
    requires
        chars@ == input@,
        head_error(chars@) is None,
        a == alias_end(chars@),
        p == path_start(chars@),
        0 < a < p < chars.len(),
    ensures
        agrees(r, quoted_path(input@)),
{
    if chars[p] != '"' {
        return Err(ParseError::MissingQuote);
    }
    let close = scan(chars, p + 1, CharClass::Quoted);
    if close >= chars.len() {
        return Err(ParseError::UnterminatedQuote);
    }
    if close == p + 1 {
        return Err(ParseError::EmptyPath);
    }
    let alias = input.substring_char(0, a);
    let path = input.substring_char(p + 1, close);
    let rest = input.substring_char(close + 1, chars.len());
    Ok((rest, Bookmark { alias, path }))
}

/// Parses a line whose path is plain: it ends at the first blank or `#`.
/// Returns the bookmark and the rest of the line.
pub fn with_simple_path<'a>(input: &'a str) -> (r: Result<(&'a str, Bookmark<'a>), ParseError>)
    ensures
        agrees(r, simple_path(input@)),
{
    let chars = to_chars(input);
    match head(&chars) {
        Ok((a, p)) => plain_tail(input, &chars, a, p),
        Err(e) => Err(e),
    }
}

/// Parses a line whose path stands in double quotes and may hold blanks
/// and `#`. Returns the bookmark and the rest of the line after the closing
/// quote.
pub fn with_quoted_path<'a>(input: &'a str) -> (r: Result<(&'a str, Bookmark<'a>), ParseError>)
    ensures
        agrees(r, quoted_path(input@)),
{
    let chars = to_chars(input);
    match head(&chars) {
        Ok((a, p)) => quoted_tail(input, &chars, a, p),
        Err(e) => Err(e),
    }
}

/// Parses a line by the full grammar: the quoted form where the path opens
/// with a double quote, the plain form otherwise. Returns the bookmark and
/// the rest of the line.
pub fn bookmark<'a>(input: &'a str) -> (r: Result<(&'a str, Bookmark<'a>), ParseError>)
    ensures
        agrees(r, parse(input@)),
{
    let chars = to_chars(input);
    match head(&chars) {
        Ok((a, p)) => if chars[p] == '"' {
            quoted_tail(input, &chars, a, p)
        } else {
            plain_tail(input, &chars, a, p)
        },
        Err(e) => Err(e),
    }
}

/// Whether the first non-blank character of the line is `#`.
pub fn is_comment_line(line: &str) -> (b: bool)
    ensures
        b == is_comment(line@),
{
    let chars = to_chars(line);
    let first = scan(&chars, 0, CharClass::Blank);
    first < chars.len() && chars[first] == '#'
}

/// Classifies a line: a comment, a bookmark, or malformed with its text.
pub fn classify<'a>(line: &'a str) -> (r: Line<'a>)
    ensures
        r@ == classification(line@),
        r matches Line::Malformed(text) ==> text@ == line@,
{
    if is_comment_line(line) {
        Line::Comment
    } else {
        match bookmark(line) {
            Ok((_, b)) => Line::Parsed(b),
            Err(_) => Line::Malformed(line),
        }
    }
}

} // verus!
