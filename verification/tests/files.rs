use bookmarks::collect::{collect_bookmarks, Rejected};
use bookmarks::grammar::ParseError;
use bookmarks::parser::Bookmark;
use bookmarks::render::{render, render_line, Format};

#[test]
fn file_to_jump_map_and_named_dirs() {
    let content = "# my bookmarks\nproj /home/user/project\ndocs \"/home/user/My Documents\"\n";
    let lines: Vec<&str> = content.lines().collect();
    let found = collect_bookmarks(&lines).unwrap();
    assert_eq!(
        found,
        vec![
            Bookmark { alias: "proj", path: "/home/user/project" },
            Bookmark { alias: "docs", path: "/home/user/My Documents" },
        ]
    );
    assert_eq!(
        render(&found, Format::JumpMap),
        "map gproj cd /home/user/project\nmap gdocs cd /home/user/My Documents\n"
    );
    assert_eq!(
        render(&found, Format::NamedDirs),
        "hash -d proj=/home/user/project\nhash -d docs=/home/user/My Documents\n"
    );
    assert_eq!(
        render(&found, Format::CdAliases),
        "alias cdproj=\"/home/user/project\"\nalias cddocs=\"/home/user/My Documents\"\n"
    );
}

#[test]
fn single_word_line_rejects_the_file() {
    let lines = vec!["onlyoneword"];
    assert_eq!(
        collect_bookmarks(&lines),
        Err(Rejected { index: 0, text: "onlyoneword", reason: ParseError::MissingPath })
    );
}

#[test]
fn first_malformed_line_is_reported() {
    let lines = vec!["# head", "a /a", "b \"open", "c", "d /d"];
    assert_eq!(
        collect_bookmarks(&lines),
        Err(Rejected { index: 2, text: "b \"open", reason: ParseError::UnterminatedQuote })
    );
}

#[test]
fn blank_line_rejects_the_file() {
    let lines = vec!["a /a", "", "b /b"];
    assert_eq!(
        collect_bookmarks(&lines),
        Err(Rejected { index: 1, text: "", reason: ParseError::MissingAlias })
    );
}

#[test]
fn comments_are_skipped_and_order_is_kept() {
    let lines = vec!["z /z", "  # note", "a /a # first", "#", "z /other"];
    assert_eq!(
        collect_bookmarks(&lines),
        Ok(vec![
            Bookmark { alias: "z", path: "/z" },
            Bookmark { alias: "a", path: "/a" },
            Bookmark { alias: "z", path: "/other" },
        ])
    );
}

#[test]
fn no_lines_no_bookmarks() {
    let lines: Vec<&str> = Vec::new();
    assert_eq!(collect_bookmarks(&lines), Ok(Vec::new()));
    assert_eq!(render(&Vec::new(), Format::JumpMap), "");
    assert_eq!(render(&Vec::new(), Format::NamedDirs), "");
    assert_eq!(render(&Vec::new(), Format::CdAliases), "");
}

#[test]
fn one_line_in_each_format() {
    let b = Bookmark { alias: "A", path: "P" };
    assert_eq!(render_line(&b, Format::JumpMap), "map gA cd P\n");
    assert_eq!(render_line(&b, Format::NamedDirs), "hash -d A=P\n");
    assert_eq!(render_line(&b, Format::CdAliases), "alias cdA=\"P\"\n");
}

#[test]
fn pieces_of_each_format() {
    assert_eq!(Format::JumpMap.pieces(), ("map g", " cd ", "\n"));
    assert_eq!(Format::NamedDirs.pieces(), ("hash -d ", "=", "\n"));
    assert_eq!(Format::CdAliases.pieces(), ("alias cd", "=\"", "\"\n"));
}

#[test]
fn rejected_line_is_described_with_its_text() {
    let lines = vec!["# c", "onlyoneword"];
    let rejected = collect_bookmarks(&lines).unwrap_err();
    assert_eq!(rejected.index, 1);
    assert_eq!(rejected.describe(), "malformed bookmark line (no path after the alias): onlyoneword");
}

#[test]
fn each_reason_in_words() {
    assert_eq!(ParseError::MissingAlias.describe(), "no alias at the start of the line");
    assert_eq!(ParseError::MissingPath.describe(), "no path after the alias");
    assert_eq!(ParseError::MissingQuote.describe(), "no opening quote before the path");
    assert_eq!(ParseError::UnterminatedQuote.describe(), "no closing quote after the path");
    assert_eq!(ParseError::EmptyPath.describe(), "empty path");
}
