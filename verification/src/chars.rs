//! Character classes of the bookmark grammar and maximal runs over them.

use vstd::prelude::*;

verus! {

/// Whitespace is the characters that Unicode marks as White_Space: tab,
/// line feed, vertical tab, form feed, carriage return and space, the
/// next-line control, the no-break space, and the spaces and separators of
/// the general punctuation block and beyond. No other character separates
/// tokens.
pub open spec fn is_space(c: char) -> bool {
    ||| '\u{09}' <= c <= '\u{0D}'
    ||| c == ' '
    ||| c == '\u{85}'
    ||| c == '\u{A0}'
    ||| c == '\u{1680}'
    ||| '\u{2000}' <= c <= '\u{200A}'
    ||| c == '\u{2028}'
    ||| c == '\u{2029}'
    ||| c == '\u{202F}'
    ||| c == '\u{205F}'
    ||| c == '\u{3000}'
}

/// Whether `c` is whitespace.
pub fn is_blank(c: char) -> (b: bool)
    ensures
        b == is_space(c),
{
    ('\u{09}' <= c && c <= '\u{0D}') || c == ' ' || c == '\u{85}' || c == '\u{A0}' || c
        == '\u{1680}' || ('\u{2000}' <= c && c <= '\u{200A}') || c == '\u{2028}' || c
        == '\u{2029}' || c == '\u{202F}' || c == '\u{205F}' || c == '\u{3000}'
}

/// The sets of characters that the grammar consumes in runs.
#[derive(Clone, Copy, Debug, PartialEq, Eq, Structural)]
pub enum CharClass {
    /// Whitespace: the separator between alias and path.
    Blank,
    /// Anything but whitespace: the characters of an alias.
    Word,
    /// Anything but whitespace and `#`: the characters of an unquoted path.
    Plain,
    /// Anything but `"`: the characters of a quoted path.
    Quoted,
}

impl CharClass {
    /// The characters of the class.
    pub open spec fn has(self, c: char) -> bool {
        match self {
            CharClass::Blank => is_space(c),
            CharClass::Word => !is_space(c),
            CharClass::Plain => !is_space(c) && c != '#',
            CharClass::Quoted => c != '"',
        }
    }

    /// Whether `c` belongs to the class.
    pub fn contains(&self, c: char) -> (b: bool)
        ensures
            b == self.has(c),
    {
        match self {
            CharClass::Blank => is_blank(c),
            CharClass::Word => !is_blank(c),
            CharClass::Plain => c != '#' && !is_blank(c),
            CharClass::Quoted => c != '"',
        }
    }
}

/// Where the maximal run of `class` characters that starts at `from` ends:
/// the first position at or after `from` whose character is outside the
/// class, or the length of `s` where there is none.
pub open spec fn run_end(s: Seq<char>, from: int, class: CharClass) -> int
    decreases s.len() - from,
{
    if 0 <= from < s.len() && class.has(s[from]) {
        run_end(s, from + 1, class)
    } else {
        from
    }
}

/// `run_end` is the one position that bounds a run: everything before it is
/// in the class, and it is the end of the text or a character outside it.
pub proof fn lemma_run_end_unique(s: Seq<char>, from: int, class: CharClass, end: int)
    requires
        0 <= from <= end <= s.len(),
        forall|i: int| from <= i < end ==> class.has(#[trigger] s[i]),
        end == s.len() || !class.has(s[end]),
    ensures
        run_end(s, from, class) == end,
    decreases end - from,
{
    if from < end {
        lemma_run_end_unique(s, from + 1, class, end);
    }
}

/// The run that `run_end` bounds lies within the text, holds only
/// characters of the class, and cannot be extended.
pub proof fn lemma_run_end_bounds(s: Seq<char>, from: int, class: CharClass)
    requires
        0 <= from <= s.len(),
    ensures
        from <= run_end(s, from, class) <= s.len(),
        forall|i: int| from <= i < run_end(s, from, class) ==> class.has(#[trigger] s[i]),
        run_end(s, from, class) == s.len() || !class.has(s[run_end(s, from, class)]),
    decreases s.len() - from,
{
    if from < s.len() && class.has(s[from]) {
        lemma_run_end_bounds(s, from + 1, class);
    }
}

/// Scans the maximal run of `class` characters in `text` from `from` on and
/// returns where it ends.
pub fn scan(text: &Vec<char>, from: usize, class: CharClass) -> (end: usize)
    requires
        from <= text.len(),
    ensures
        end == run_end(text@, from as int, class),
        from <= end <= text.len(),
{
    let mut end: usize = from;
    while end < text.len() && class.contains(text[end])
        invariant
            from <= end <= text.len(),
            run_end(text@, from as int, class) == run_end(text@, end as int, class),
        decreases text.len() - end,
    {
        end += 1;
    }
    end
}

} // verus!
