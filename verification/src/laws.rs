//! What holds of the grammar on whole families of lines.

use vstd::prelude::*;
use crate::chars::{is_space, lemma_run_end_bounds, lemma_run_end_unique, run_end, CharClass};
use crate::grammar::{
    alias_end, classification, head_error, is_comment, parse, path_start, quoted_path,
    simple_path, Entry, LineKind, Match, ParseError,
};

verus! {

/// Every character of `t` is a blank.
pub open spec fn all_blank(t: Seq<char>) -> bool {
    forall|i: int| 0 <= i < t.len() ==> is_space(#[trigger] t[i])
}

/// No character of `t` is a blank.
pub open spec fn blank_free(t: Seq<char>) -> bool {
    forall|i: int| 0 <= i < t.len() ==> !is_space(#[trigger] t[i])
}

/// No character of `t` is `#`.
pub open spec fn hash_free(t: Seq<char>) -> bool {
    forall|i: int| 0 <= i < t.len() ==> #[trigger] t[i] != '#'
}

/// No character of `t` is a double quote.
pub open spec fn quote_free(t: Seq<char>) -> bool {
    forall|i: int| 0 <= i < t.len() ==> #[trigger] t[i] != '"'
}

/// A non-empty text without blanks: what an alias is.
pub open spec fn is_token(t: Seq<char>) -> bool {
    t.len() > 0 && blank_free(t)
}

/// The match that holds `alias`, `path` and `rest`.
pub open spec fn matched(alias: Seq<char>, path: Seq<char>, rest: Seq<char>) -> Match {
    Match { entry: Entry { alias, path }, rest }
}

/// A line that is a token followed by blanks has its alias and path
/// boundaries at the ends of the two.
proof fn lemma_head(alias: Seq<char>, sep: Seq<char>, tail: Seq<char>)
    requires
        is_token(alias),
        sep.len() > 0,
        all_blank(sep),
        tail.len() > 0,
        !is_space(tail[0]),
    ensures
        alias_end(alias + sep + tail) == alias.len(),
        path_start(alias + sep + tail) == alias.len() + sep.len(),
        head_error(alias + sep + tail) is None,
        (alias + sep + tail).subrange(0, alias.len() as int) == alias,
{
    let s = alias + sep + tail;
    let a = alias.len() as int;
    let p: int = a + sep.len();
    assert forall|i: int| 0 <= i < a implies CharClass::Word.has(#[trigger] s[i]) by {
        assert(s[i] == alias[i]);
    }
    assert(s[a] == sep[0]);
    lemma_run_end_unique(s, 0, CharClass::Word, a);
    assert forall|i: int| a <= i < p implies CharClass::Blank.has(#[trigger] s[i]) by {
        assert(s[i] == sep[i - a]);
    }
    assert(s[p] == tail[0]);
    lemma_run_end_unique(s, a, CharClass::Blank, p);
    assert(s.subrange(0, a) =~= alias);
}

/// A token, blanks, and a run of characters that are neither blank nor `#`
/// and that ends the line or is followed by a blank or a `#`: the plain
/// grammar reads the token as the alias and the run as the path, and leaves
/// the rest. The full grammar does the same unless the run opens with a
/// double quote.
pub proof fn lemma_plain_line(alias: Seq<char>, sep: Seq<char>, path: Seq<char>, rest: Seq<char>)
    requires
        is_token(alias),
        sep.len() > 0,
        all_blank(sep),
        path.len() > 0,
        blank_free(path),
        hash_free(path),
        rest.len() == 0 || is_space(rest[0]) || rest[0] == '#',
    ensures
        simple_path(alias + sep + path + rest) == Ok::<Match, ParseError>(
            matched(alias, path, rest),
        ),
        path[0] != '"' ==> parse(alias + sep + path + rest) == Ok::<Match, ParseError>(
            matched(alias, path, rest),
        ),
{
    let s = alias + sep + path + rest;
    let p: int = (alias.len() + sep.len()) as int;
    let e: int = p + path.len();
    assert(s =~= alias + sep + (path + rest));
    assert((path + rest)[0] == path[0]);
    lemma_head(alias, sep, path + rest);
    assert forall|i: int| p <= i < e implies CharClass::Plain.has(#[trigger] s[i]) by {
        assert(s[i] == path[i - p]);
    }
    if rest.len() > 0 {
        assert(s[e] == rest[0]);
    }
    lemma_run_end_unique(s, p, CharClass::Plain, e);
    assert(s.subrange(p, e) =~= path);
    assert(s.subrange(e, s.len() as int) =~= rest);
    assert(s[p] == path[0]);
}

/// An alias, one space and a path, both non-empty and free of blanks, the
/// path free of `#`: the plain grammar yields exactly that alias and path,
/// and so does the full grammar unless the path opens with a double quote.
pub proof fn lemma_alias_space_path(alias: Seq<char>, path: Seq<char>)
    requires
        is_token(alias),
        is_token(path),
        hash_free(path),
    ensures
        simple_path(alias + seq![' '] + path) == Ok::<Match, ParseError>(
            matched(alias, path, Seq::empty()),
        ),
        path[0] != '"' ==> parse(alias + seq![' '] + path) == Ok::<Match, ParseError>(
            matched(alias, path, Seq::empty()),
        ),
{
    lemma_plain_line(alias, seq![' '], path, Seq::empty());
    assert(alias + seq![' '] + path + Seq::<char>::empty() =~= alias + seq![' '] + path);
}

/// An alias, one space, a path and a `#` right behind it with anything
/// after: the plain grammar yields the alias and the path and drops the
/// `#` and what follows it, and so does the full grammar unless the path
/// opens with a double quote.
pub proof fn lemma_trailing_comment(alias: Seq<char>, path: Seq<char>, trailing: Seq<char>)
    requires
        is_token(alias),
        is_token(path),
        hash_free(path),
    ensures
        simple_path(alias + seq![' '] + path + seq!['#'] + trailing) == Ok::<Match, ParseError>(
            matched(alias, path, seq!['#'] + trailing),
        ),
        path[0] != '"' ==> parse(alias + seq![' '] + path + seq!['#'] + trailing) == Ok::<
            Match,
            ParseError,
        >(matched(alias, path, seq!['#'] + trailing)),
{
    lemma_plain_line(alias, seq![' '], path, seq!['#'] + trailing);
    assert(alias + seq![' '] + path + (seq!['#'] + trailing) =~= alias + seq![' '] + path
        + seq!['#'] + trailing);
}

/// An alias, blanks and a non-empty text between two double quotes: the
/// quoted and the full grammar yield the alias and the text between the
/// quotes, whatever blanks and `#` it holds, and leave what follows the
/// closing quote.
pub proof fn lemma_quoted_line(alias: Seq<char>, sep: Seq<char>, path: Seq<char>, rest: Seq<char>)
    requires
        is_token(alias),
        sep.len() > 0,
        all_blank(sep),
        path.len() > 0,
        quote_free(path),
    ensures
        quoted_path(alias + sep + seq!['"'] + path + seq!['"'] + rest) == Ok::<Match, ParseError>(
            matched(alias, path, rest),
        ),
        parse(alias + sep + seq!['"'] + path + seq!['"'] + rest) == Ok::<Match, ParseError>(
            matched(alias, path, rest),
        ),
{
    let s = alias + sep + seq!['"'] + path + seq!['"'] + rest;
    let tail = seq!['"'] + path + seq!['"'] + rest;
    let p: int = (alias.len() + sep.len()) as int;
    let e: int = p + 1 + path.len();
    assert(s =~= alias + sep + tail);
    assert(tail[0] == '"');
    lemma_head(alias, sep, tail);
    assert(s[p] == '"');
    assert forall|i: int| p + 1 <= i < e implies CharClass::Quoted.has(#[trigger] s[i]) by {
        assert(s[i] == path[i - p - 1]);
    }
    assert(s[e] == '"');
    lemma_run_end_unique(s, p + 1, CharClass::Quoted, e);
    assert(s.subrange(p + 1, e) =~= path);
    assert(s.subrange(e + 1, s.len() as int) =~= rest);
}

/// A line without a blank holds no bookmark: it has no alias where it is
/// empty and no path otherwise, and it is malformed unless it is a comment.
pub proof fn lemma_single_token(s: Seq<char>)
    requires
        blank_free(s),
    ensures
        parse(s) == Err::<Match, ParseError>(
            if s.len() == 0 {
                ParseError::MissingAlias
            } else {
                ParseError::MissingPath
            },
        ),
        is_comment(s) <==> s.len() > 0 && s[0] == '#',
        !is_comment(s) ==> classification(s) == LineKind::Malformed,
{
    let n = s.len() as int;
    assert forall|i: int| 0 <= i < n implies CharClass::Word.has(#[trigger] s[i]) by {}
    lemma_run_end_unique(s, 0, CharClass::Word, n);
    lemma_run_end_unique(s, n, CharClass::Blank, n);
    lemma_run_end_unique(s, 0, CharClass::Blank, 0);
}

/// An alias, blanks, a double quote and no second one: the line holds no
/// bookmark, and the opening quote is not read as part of a plain path.
pub proof fn lemma_unterminated_quote(alias: Seq<char>, sep: Seq<char>, tail: Seq<char>)
    requires
        is_token(alias),
        sep.len() > 0,
        all_blank(sep),
        quote_free(tail),
    ensures
        parse(alias + sep + seq!['"'] + tail) == Err::<Match, ParseError>(
            ParseError::UnterminatedQuote,
        ),
        alias[0] != '#' ==> classification(alias + sep + seq!['"'] + tail) == LineKind::Malformed,
{
    let s = alias + sep + seq!['"'] + tail;
    let p: int = (alias.len() + sep.len()) as int;
    assert(s =~= alias + sep + (seq!['"'] + tail));
    assert((seq!['"'] + tail)[0] == '"');
    lemma_head(alias, sep, seq!['"'] + tail);
    assert(s[p] == '"');
    assert forall|i: int| p + 1 <= i < s.len() implies CharClass::Quoted.has(#[trigger] s[i]) by {
        assert(s[i] == tail[i - p - 1]);
    }
    lemma_run_end_unique(s, p + 1, CharClass::Quoted, s.len() as int);
    assert(s[0] == alias[0]);
    lemma_run_end_unique(s, 0, CharClass::Blank, 0);
}

/// Blanks, a `#` and anything after it: the line is a comment, so neither
/// malformed nor a bookmark.
pub proof fn lemma_comment(lead: Seq<char>, tail: Seq<char>)
    requires
        all_blank(lead),
    ensures
        is_comment(lead + seq!['#'] + tail),
        classification(lead + seq!['#'] + tail) == LineKind::Comment,
{
    let s = lead + seq!['#'] + tail;
    let k = lead.len() as int;
    assert forall|i: int| 0 <= i < k implies CharClass::Blank.has(#[trigger] s[i]) by {
        assert(s[i] == lead[i]);
    }
    assert(s[k] == '#');
    lemma_run_end_unique(s, 0, CharClass::Blank, k);
}

/// Every bookmark that the grammar reads has a non-empty alias without
/// blanks and a non-empty path. A plain path holds no blank and no `#`; a
/// quoted one holds no double quote.
pub proof fn lemma_bookmark_valid(s: Seq<char>)
    requires
        parse(s) is Ok,
    ensures
        is_token(parse(s)->Ok_0.entry.alias),
        parse(s)->Ok_0.entry.path.len() > 0,
        s[path_start(s)] != '"' ==> blank_free(parse(s)->Ok_0.entry.path) && hash_free(
            parse(s)->Ok_0.entry.path,
        ),
        s[path_start(s)] == '"' ==> quote_free(parse(s)->Ok_0.entry.path),
{
    let a = alias_end(s);
    let p = path_start(s);
    lemma_run_end_bounds(s, 0, CharClass::Word);
    lemma_run_end_bounds(s, a, CharClass::Blank);
    if s[p] == '"' {
        lemma_run_end_bounds(s, p + 1, CharClass::Quoted);
    } else {
        lemma_run_end_bounds(s, p, CharClass::Plain);
    }
}

/// Every line that holds a bookmark is made of its alias, a non-empty run
/// of blanks, its path, bare or between two double quotes, and the rest. A
/// bare path does not open with a double quote, and the rest after it is
/// empty or opens with a blank or a `#`.
pub proof fn lemma_parsed_line_shape(s: Seq<char>)
    requires
        parse(s) is Ok,
    ensures
        ({
            let m = parse(s)->Ok_0;
            let sep = s.subrange(alias_end(s), path_start(s));
            &&& sep.len() > 0
            &&& all_blank(sep)
            &&& if s[path_start(s)] == '"' {
                s == m.entry.alias + sep + seq!['"'] + m.entry.path + seq!['"'] + m.rest
            } else {
                &&& s == m.entry.alias + sep + m.entry.path + m.rest
                &&& m.rest.len() == 0 || is_space(m.rest[0]) || m.rest[0] == '#'
            }
        }),
{
    let a = alias_end(s);
    let p = path_start(s);
    let m = parse(s)->Ok_0;
    let sep = s.subrange(a, p);
    lemma_run_end_bounds(s, 0, CharClass::Word);
    lemma_run_end_bounds(s, a, CharClass::Blank);
    lemma_run_end_bounds(s, a + 1, CharClass::Blank);
    assert forall|i: int| 0 <= i < sep.len() implies is_space(#[trigger] sep[i]) by {
        assert(sep[i] == s[a + i]);
    }
    if s[p] == '"' {
        lemma_run_end_bounds(s, p + 1, CharClass::Quoted);
        assert(s =~= m.entry.alias + sep + seq!['"'] + m.entry.path + seq!['"'] + m.rest);
    } else {
        lemma_run_end_bounds(s, p, CharClass::Plain);
        assert(s =~= m.entry.alias + sep + m.entry.path + m.rest);
        if m.rest.len() > 0 {
            assert(m.rest[0] == s[run_end(s, p, CharClass::Plain)]);
        }
    }
}

/// A bookmark that was read from a line and whose path holds no blank and
/// no `#` is read again from its alias, one space and its path.
pub proof fn lemma_reparse(s: Seq<char>)
    requires
        parse(s) is Ok,
        blank_free(parse(s)->Ok_0.entry.path),
        hash_free(parse(s)->Ok_0.entry.path),
    ensures
        ({
            let e = parse(s)->Ok_0.entry;
            &&& simple_path(e.alias + seq![' '] + e.path) == Ok::<Match, ParseError>(
                matched(e.alias, e.path, Seq::empty()),
            )
            &&& parse(e.alias + seq![' '] + e.path) == Ok::<Match, ParseError>(
                matched(e.alias, e.path, Seq::empty()),
            )
        }),
{
    let e = parse(s)->Ok_0.entry;
    lemma_bookmark_valid(s);
    lemma_run_end_bounds(s, 0, CharClass::Word);
    lemma_run_end_bounds(s, alias_end(s), CharClass::Blank);
    lemma_run_end_bounds(s, path_start(s), CharClass::Plain);
    lemma_alias_space_path(e.alias, e.path);
}

} // verus!
