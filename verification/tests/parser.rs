use bookmarks::chars::{is_blank, scan, CharClass};
use bookmarks::grammar::ParseError;
use bookmarks::parser::{
    bookmark, classify, is_comment_line, with_quoted_path, with_simple_path, Bookmark, Line,
};
use bookmarks::text::to_chars;

#[test]
fn only_considers_till_second_space() {
    let input = "a b c";

    let result = bookmark(input).unwrap().1;

    assert_eq!(result.alias, "a");
    assert_eq!(result.path, "b");
}

#[test]
fn ignores_comment() {
    let input = "a b# c";

    let result = bookmark(input).unwrap().1;

    assert_eq!(result.alias, "a");
    assert_eq!(result.path, "b");
}

#[test]
fn correctly_handles_quoted_path() {
    let input = r#"a "test test #test" asdf"#;

    let result = bookmark(input).unwrap().1;

    assert_eq!(result.alias, "a");
    assert_eq!(result.path, "test test #test");
}

#[test]
fn returns_the_rest_of_the_line() {
    assert_eq!(bookmark("a b c").unwrap().0, " c");
    assert_eq!(bookmark("a b# c").unwrap().0, "# c");
    assert_eq!(bookmark(r#"a "b c" d"#).unwrap().0, " d");
    assert_eq!(bookmark("a b").unwrap().0, "");
    assert_eq!(bookmark(r#"a "b""#).unwrap().0, "");
}

#[test]
fn alias_and_path_separated_by_one_space() {
    let (rest, found) = bookmark("proj /home/user/project").unwrap();
    assert_eq!(found, Bookmark { alias: "proj", path: "/home/user/project" });
    assert_eq!(rest, "");
    let (rest, found) = with_simple_path("proj /home/user/project").unwrap();
    assert_eq!(found, Bookmark { alias: "proj", path: "/home/user/project" });
    assert_eq!(rest, "");
}

#[test]
fn hash_right_after_path_ends_it() {
    let (rest, found) = bookmark("docs /srv/docs# trailing").unwrap();
    assert_eq!(found, Bookmark { alias: "docs", path: "/srv/docs" });
    assert_eq!(rest, "# trailing");
}

#[test]
fn quoted_path_keeps_spaces_and_hash() {
    let (rest, found) = bookmark(r#"alias "quoted path with spaces #and hash""#).unwrap();
    assert_eq!(found.alias, "alias");
    assert_eq!(found.path, "quoted path with spaces #and hash");
    assert_eq!(rest, "");
    let (_, found) = with_quoted_path(r#"alias "quoted path with spaces #and hash""#).unwrap();
    assert_eq!(found.path, "quoted path with spaces #and hash");
}

#[test]
fn separator_takes_every_blank() {
    let found = bookmark("a    b").unwrap().1;
    assert_eq!(found, Bookmark { alias: "a", path: "b" });
    let found = bookmark("a \t \"b c\"").unwrap().1;
    assert_eq!(found, Bookmark { alias: "a", path: "b c" });
}

#[test]
fn tab_ends_the_alias() {
    let found = bookmark("a\tb c").unwrap().1;
    assert_eq!(found, Bookmark { alias: "a", path: "b" });
}

#[test]
fn alias_may_hold_hash_and_quote() {
    let found = bookmark("a#\"x /tmp").unwrap().1;
    assert_eq!(found, Bookmark { alias: "a#\"x", path: "/tmp" });
}

#[test]
fn characters_beyond_ascii_are_kept_whole() {
    let (rest, found) = bookmark("büro /höme/ünser zwölf").unwrap();
    assert_eq!(found, Bookmark { alias: "büro", path: "/höme/ünser" });
    assert_eq!(rest, " zwölf");
    let (rest, found) = bookmark("日本 \"東 京\"末").unwrap();
    assert_eq!(found, Bookmark { alias: "日本", path: "東 京" });
    assert_eq!(rest, "末");
}

#[test]
fn no_break_space_is_a_blank() {
    let (rest, found) = bookmark("a b\u{a0}c").unwrap();
    assert_eq!(found.path, "b");
    assert_eq!(rest, "\u{a0}c");
    let found = bookmark("a\u{3000}b").unwrap().1;
    assert_eq!(found, Bookmark { alias: "a", path: "b" });
    assert!(is_comment_line("\u{2003}# note"));
}

#[test]
fn blanks_are_the_white_space_characters() {
    let mut count = 0;
    for code in 0u32..=0x10FFFF {
        if let Some(c) = char::from_u32(code) {
            assert_eq!(is_blank(c), c.is_whitespace());
            if is_blank(c) {
                count += 1;
            }
        }
    }
    assert_eq!(count, 25);
}

#[test]
fn empty_line_has_no_alias() {
    assert_eq!(bookmark(""), Err(ParseError::MissingAlias));
    assert_eq!(with_simple_path(""), Err(ParseError::MissingAlias));
    assert_eq!(with_quoted_path(""), Err(ParseError::MissingAlias));
    assert_eq!(classify(""), Line::Malformed(""));
}

#[test]
fn leading_blank_leaves_no_alias() {
    assert_eq!(bookmark(" a b"), Err(ParseError::MissingAlias));
    assert_eq!(bookmark("   "), Err(ParseError::MissingAlias));
    assert_eq!(classify("   "), Line::Malformed("   "));
}

#[test]
fn single_token_has_no_path() {
    assert_eq!(bookmark("justanalias"), Err(ParseError::MissingPath));
    assert_eq!(classify("justanalias"), Line::Malformed("justanalias"));
    assert_eq!(bookmark("justanalias   "), Err(ParseError::MissingPath));
    assert_eq!(with_simple_path("justanalias"), Err(ParseError::MissingPath));
    assert_eq!(with_quoted_path("justanalias "), Err(ParseError::MissingPath));
}

#[test]
fn unterminated_quote_is_malformed() {
    assert_eq!(bookmark("alias \"unterminated"), Err(ParseError::UnterminatedQuote));
    assert_eq!(classify("alias \"unterminated"), Line::Malformed("alias \"unterminated"));
    assert_eq!(bookmark("alias \""), Err(ParseError::UnterminatedQuote));
    assert_eq!(with_quoted_path("alias \"un terminated"), Err(ParseError::UnterminatedQuote));
}

#[test]
fn plain_grammar_reads_a_quote_as_any_character() {
    let found = with_simple_path("alias \"unterminated").unwrap().1;
    assert_eq!(found, Bookmark { alias: "alias", path: "\"unterminated" });
}

#[test]
fn empty_path_is_refused() {
    assert_eq!(bookmark("a #b"), Err(ParseError::EmptyPath));
    assert_eq!(with_simple_path("a #b"), Err(ParseError::EmptyPath));
    assert_eq!(bookmark("a \"\""), Err(ParseError::EmptyPath));
    assert_eq!(bookmark("a \"\"x\""), Err(ParseError::EmptyPath));
    assert_eq!(with_quoted_path("a \"\" b"), Err(ParseError::EmptyPath));
}

#[test]
fn quoted_grammar_wants_an_opening_quote() {
    assert_eq!(with_quoted_path("a b"), Err(ParseError::MissingQuote));
    assert_eq!(with_quoted_path("a b\"c\""), Err(ParseError::MissingQuote));
}

#[test]
fn quote_inside_a_plain_path_is_kept() {
    let found = bookmark("a b\"c\" d").unwrap().1;
    assert_eq!(found.path, "b\"c\"");
}

#[test]
fn comment_lines() {
    assert!(is_comment_line("# my bookmarks"));
    assert!(is_comment_line("#"));
    assert!(is_comment_line("   \t# indented"));
    assert!(is_comment_line("#a b"));
    assert!(!is_comment_line("a b # c"));
    assert!(!is_comment_line(""));
    assert!(!is_comment_line("   "));
    assert!(!is_comment_line("a#"));
    assert_eq!(classify("# my bookmarks"), Line::Comment);
    assert_eq!(classify("  # a b"), Line::Comment);
    assert_eq!(classify("#a \"b"), Line::Comment);
}

#[test]
fn classify_gives_the_bookmark() {
    assert_eq!(
        classify("docs \"/home/user/My Documents\""),
        Line::Parsed(Bookmark { alias: "docs", path: "/home/user/My Documents" })
    );
    assert_eq!(classify("a b# c"), Line::Parsed(Bookmark { alias: "a", path: "b" }));
    assert_eq!(classify("a #b"), Line::Malformed("a #b"));
}

#[test]
fn every_blank_separates() {
    for blank in [' ', '\t', '\n', '\u{0B}', '\u{0C}', '\r', '\u{85}', '\u{1680}', '\u{200A}'] {
        let line = format!("a{}b{}c", blank, blank);
        let (rest, found) = bookmark(&line).unwrap();
        assert_eq!(found.alias, "a");
        assert_eq!(found.path, "b");
        assert_eq!(rest, format!("{}c", blank));
        assert!(CharClass::Blank.contains(blank));
        assert!(!CharClass::Word.contains(blank));
        assert!(!CharClass::Plain.contains(blank));
        assert!(CharClass::Quoted.contains(blank));
    }
}

#[test]
fn character_classes() {
    assert!(CharClass::Word.contains('#'));
    assert!(!CharClass::Plain.contains('#'));
    assert!(CharClass::Plain.contains('"'));
    assert!(!CharClass::Quoted.contains('"'));
    assert!(CharClass::Quoted.contains('#'));
    assert!(!CharClass::Blank.contains('a'));
    assert!(CharClass::Blank.contains('\u{a0}'));
    assert!(!CharClass::Blank.contains('\u{200B}'));
}

#[test]
fn scan_stops_at_the_first_character_outside_the_class() {
    let text = to_chars("ab  c#d");
    assert_eq!(text, vec!['a', 'b', ' ', ' ', 'c', '#', 'd']);
    assert_eq!(scan(&text, 0, CharClass::Word), 2);
    assert_eq!(scan(&text, 2, CharClass::Blank), 4);
    assert_eq!(scan(&text, 4, CharClass::Plain), 5);
    assert_eq!(scan(&text, 4, CharClass::Word), 7);
    assert_eq!(scan(&text, 2, CharClass::Word), 2);
    assert_eq!(scan(&text, 7, CharClass::Word), 7);
    assert_eq!(scan(&text, 0, CharClass::Quoted), 7);
}

#[test]
fn to_chars_decodes_each_character() {
    assert_eq!(to_chars(""), Vec::<char>::new());
    assert_eq!(to_chars("aé日"), vec!['a', 'é', '日']);
}
