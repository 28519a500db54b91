//! From the lines of a bookmarks file to its bookmarks, in file order.
//!
//! Comments are passed over. The first line that is neither a comment nor a
//! bookmark rejects the whole file: nothing is collected past it, and
//! nothing that was collected before it is handed out.

use vstd::prelude::*;
use crate::grammar::{classification, parse, Entry, LineKind, Match, ParseError};
use crate::parser::{bookmark, is_comment_line, Bookmark};

verus! {

/// The line that rejects a file: its position among the lines, counted from
/// zero, its text, and why it holds no bookmark.
#[derive(Clone, Copy, Debug, PartialEq, Eq)]
pub struct Rejected<'a> {
    pub index: usize,
    pub text: &'a str,
    pub reason: ParseError,
}

impl<'a> Rejected<'a> {
    /// The message that names the reason and quotes the line.
    pub open spec fn message(self) -> Seq<char> {
        "malformed bookmark line ("@ + self.reason.text() + "): "@ + self.text@
    }

    /// The message for the user: the reason, then the text of the line.
    pub fn describe(&self) -> (out: String)
        ensures
            out@ == self.message(),
    {
        let mut out = String::new();
        out.append("malformed bookmark line (");
        out.append(self.reason.describe());
        out.append("): ");
        out.append(self.text);
        assert(out@ =~= self.message());
        out
    }
}

/// The texts of the lines.
pub open spec fn texts<'a>(lines: Seq<&'a str>) -> Seq<Seq<char>> {
    Seq::new(lines.len(), |i: int| lines[i]@)
}

/// The bookmarks as pairs of texts.
pub open spec fn entries_of<'a>(bookmarks: Seq<Bookmark<'a>>) -> Seq<Entry> {
    Seq::new(bookmarks.len(), |i: int| bookmarks[i]@)
}

/// Whether the line is neither a comment nor a bookmark.
pub open spec fn is_malformed(line: Seq<char>) -> bool {
    classification(line) is Malformed
}

/// The bookmarks that the lines hold, in the order of the lines.
pub open spec fn entries(lines: Seq<Seq<char>>) -> Seq<Entry>
    decreases lines.len(),
{
    if lines.len() == 0 {
        Seq::empty()
    } else {
        match classification(lines.last()) {
            LineKind::Parsed(e) => entries(lines.drop_last()).push(e),
            _ => entries(lines.drop_last()),
        }
    }
}

/// Collects the bookmarks of `lines` in order, skipping comments, or
/// reports the first malformed line.
pub fn collect_bookmarks<'a>(lines: &Vec<&'a str>) -> (r: Result<Vec<Bookmark<'a>>, Rejected<'a>>)
    ensures
        match r {
            Ok(bookmarks) => {
                &&& forall|i: int| 0 <= i < lines.len() ==> !is_malformed(#[trigger] lines[i]@)
                &&& entries_of(bookmarks@) == entries(texts(lines@))
            },
            Err(e) => {
                &&& e.index < lines.len()
                &&& is_malformed(lines[e.index as int]@)
                &&& forall|i: int| 0 <= i < e.index ==> !is_malformed(#[trigger] lines[i]@)
                &&& e.text@ == lines[e.index as int]@
                &&& parse(e.text@) == Err::<Match, ParseError>(e.reason)
            },
        },
{
    let mut found: Vec<Bookmark<'a>> = Vec::new();
    let mut i: usize = 0;
    while i < lines.len()
        invariant
            i <= lines.len(),
            forall|j: int| 0 <= j < i ==> !is_malformed(#[trigger] lines[j]@),
            entries_of(found@) == entries(texts(lines@).take(i as int)),
        decreases lines.len() - i,
    {
        let line = lines[i];
        let ghost before = texts(lines@).take(i as int);
        let ghost upto = texts(lines@).take(i + 1);
        proof {
            assert(upto.drop_last() =~= before);
            assert(upto.last() == line@);
        }
        if !is_comment_line(line) {
            match bookmark(line) {
                Ok((_, b)) => {
                    found.push(b);
                },
                Err(reason) => {
                    return Err(Rejected { index: i, text: line, reason });
                },
            }
        }
        assert(entries_of(found@) =~= entries(upto));
        i += 1;
    }
    assert(texts(lines@).take(i as int) =~= texts(lines@));
    Ok(found)
}

} // verus!
