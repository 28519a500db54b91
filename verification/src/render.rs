//! The three shell formats in which the bookmarks are written out, one
//! line for each bookmark.

use vstd::prelude::*;
use crate::collect::entries_of;
use crate::grammar::Entry;
use crate::parser::Bookmark;

verus! {

/// An output format.
#[derive(Clone, Copy, Debug, PartialEq, Eq, Structural)]
pub enum Format {
    /// Key maps of a file manager that jump to the path: `map gA cd P`.
    JumpMap,
    /// Named directories of a shell: `hash -d A=P`.
    NamedDirs,
    /// Aliases that change to the path: `alias cdA="P"`.
    CdAliases,
}

impl Format {
    /// What stands before the alias.
    pub open spec fn lead(self) -> Seq<char> {
        match self {
            Format::JumpMap => "map g"@,
            Format::NamedDirs => "hash -d "@,
            Format::CdAliases => "alias cd"@,
        }
    }

    /// What stands between alias and path.
    pub open spec fn link(self) -> Seq<char> {
        match self {
            Format::JumpMap => " cd "@,
            Format::NamedDirs => "="@,
            Format::CdAliases => "=\""@,
        }
    }

    /// What stands after the path, the line's end included.
    pub open spec fn close(self) -> Seq<char> {
        match self {
            Format::JumpMap => "\n"@,
            Format::NamedDirs => "\n"@,
            Format::CdAliases => "\"\n"@,
        }
    }

    /// The line of one bookmark.
    pub open spec fn line(self, e: Entry) -> Seq<char> {
        self.lead() + e.alias + self.link() + e.path + self.close()
    }

    /// The three fixed pieces of a line: before the alias, between alias
    /// and path, after the path.
    pub fn pieces(&self) -> (p: (&'static str, &'static str, &'static str))
        ensures
            p.0@ == self.lead(),
            p.1@ == self.link(),
            p.2@ == self.close(),
    {
        match self {
            Format::JumpMap => ("map g", " cd ", "\n"),
            Format::NamedDirs => ("hash -d ", "=", "\n"),
            Format::CdAliases => ("alias cd", "=\"", "\"\n"),
        }
    }
}

/// The lines of the bookmarks, one after the other.
pub open spec fn rendered(entries: Seq<Entry>, format: Format) -> Seq<char>
    decreases entries.len(),
{
    if entries.len() == 0 {
        Seq::empty()
    } else {
        rendered(entries.drop_last(), format) + format.line(entries.last())
    }
}

/// Writes the line of one bookmark in the given format.
pub fn render_line(bookmark: &Bookmark, format: Format) -> (out: String)
    ensures
        out@ == format.line(bookmark@),
{
    let (lead, link, close) = format.pieces();
    let mut out = String::new();
    out.append(lead);
    out.append(bookmark.alias);
    out.append(link);
    out.append(bookmark.path);
    out.append(close);
    assert(out@ =~= format.line(bookmark@));
    out
}

/// Writes the bookmarks in the given format, one line each, in order.
pub fn render(bookmarks: &Vec<Bookmark>, format: Format) -> (out: String)
    ensures
        out@ == rendered(entries_of(bookmarks@), format),
{
    let mut out = String::new();
    let mut i: usize = 0;
    while i < bookmarks.len()
        invariant
            i <= bookmarks.len(),
            out@ == rendered(entries_of(bookmarks@).take(i as int), format),
        decreases bookmarks.len() - i,
    {
        let ghost upto = entries_of(bookmarks@).take(i + 1);
        proof {
            assert(upto.drop_last() =~= entries_of(bookmarks@).take(i as int));
            assert(upto.last() == bookmarks[i as int]@);
        }
        let line = render_line(&bookmarks[i], format);
        out.append(line.as_str());
        i += 1;
    }
    assert(entries_of(bookmarks@).take(i as int) =~= entries_of(bookmarks@));
    out
}

} // verus!
