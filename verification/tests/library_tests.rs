use completions::matcher::MDLinkParser;
use completions::parser::{InMemorySource, Location, Parser};
use completions::query::{
    BlockLinkCmdQuery, CharRange, EntityInfileQuery, NamedRefCmdQuery, QueryMetadata,
    QuerySyntaxInfo, QuerySyntaxTypeInfo,
};

#[test]
fn span_contains_cursor_closed() {
    let line = "abc [[file]] xyz";
    let cursor: usize = 7;
    let (_, range, _) = MDLinkParser::new(line, cursor).parse_entity().unwrap();
    assert!(range.start <= cursor && cursor <= range.end);
    assert_eq!(range, CharRange { start: 4, end: 12 });
}

#[test]
fn unclosed_span_ends_at_cursor() {
    let line = "abc [[file and more trailing text";
    let cursor: usize = 12;
    let (_, range, _) = MDLinkParser::new(line, cursor).parse_entity().unwrap();
    assert_eq!(range.start, 4);
    assert_eq!(range.end, cursor);
}

#[test]
fn blank_infile_differs_from_none() {
    let plain = MDLinkParser::new("[[file]]", 4).parse_entity().unwrap().0;
    let heading = MDLinkParser::new("[[file#]]", 4).parse_entity().unwrap().0;
    let index = MDLinkParser::new("[[file#^]]", 4).parse_entity().unwrap().0;
    assert_eq!(plain.infile_query, None);
    assert_eq!(
        heading.infile_query,
        Some(EntityInfileQuery::Heading("".to_string()))
    );
    assert_eq!(
        index.infile_query,
        Some(EntityInfileQuery::Index("".to_string()))
    );
    assert_ne!(plain, heading);
    assert_ne!(heading, index);
}

#[test]
fn no_reference_at_cursor() {
    let line = "plain text without any reference";
    assert!(MDLinkParser::new(line, 5).parse_entity().is_none());
    assert!(MDLinkParser::new(line, 5).parse_block().is_none());
}

#[test]
fn closed_wiki_preferred_over_later_markdown() {
    let line = "x [[file query stuff [demo](other)";
    let (parsed, _, info) = MDLinkParser::new(line, 10).parse_entity().unwrap();
    assert!(matches!(
        info.syntax_type_info,
        QuerySyntaxTypeInfo::Wiki { .. }
    ));
    assert_eq!(parsed.file_query, "file q");
}

#[test]
fn block_query_markdown_syntax() {
    let line = "note [display]( some text) end";
    let (d, range, info) = MDLinkParser::new(line, 20).parse_block().unwrap();
    assert_eq!(d.grep_string, "some text");
    assert_eq!(range, CharRange { start: 5, end: 26 });
    assert_eq!(
        info.syntax_type_info,
        QuerySyntaxTypeInfo::Markdown {
            display: "display".to_string()
        }
    );
}

#[test]
fn display_grep_string_strips_escapes() {
    let text = r"fjka    [[ \[\[LATER\]\]]]";
    let (d, _, _) = MDLinkParser::new(text, 40 - 22).parse_block().unwrap();
    assert_eq!(d.grep_string(), "[[LATER]]");
    assert_eq!(d.display_grep_string(), "LATER");
}

#[test]
fn block_query_escapes_untouched_when_absent() {
    let q = BlockLinkCmdQuery {
        grep_string: "plain words".to_string(),
    };
    assert_eq!(q.grep_string(), "plain words");
    assert_eq!(q.display_grep_string(), "plain words");
}

#[test]
fn entity_grep_string_forms() {
    let plain = NamedRefCmdQuery {
        file_query: "file".to_string(),
        infile_query: None,
    };
    let heading = NamedRefCmdQuery {
        file_query: "file".to_string(),
        infile_query: Some(EntityInfileQuery::Heading("head".to_string())),
    };
    let index = NamedRefCmdQuery {
        file_query: "file".to_string(),
        infile_query: Some(EntityInfileQuery::Index("idx".to_string())),
    };
    assert_eq!(plain.grep_string(), "file");
    assert_eq!(heading.grep_string(), "file#head");
    assert_eq!(index.grep_string(), "file#^idx");
}

#[test]
fn wiki_display_none_when_no_pipe() {
    let (_, _, info) = MDLinkParser::new("[[file]]", 4).parse_entity().unwrap();
    assert_eq!(info.display(), None);
}

#[test]
fn metadata_new_copies_location() {
    let location = Location {
        path: "notes/today.md".to_string(),
        line: 7,
        character: 9,
    };
    let info = QuerySyntaxInfo {
        syntax_type_info: QuerySyntaxTypeInfo::Wiki { display: None },
    };
    let md = QueryMetadata::new(location, CharRange { start: 2, end: 11 }, info);
    assert_eq!(md.line, 7);
    assert_eq!(md.cursor, 9);
    assert_eq!(md.path, "notes/today.md");
    assert_eq!(md.char_range, CharRange { start: 2, end: 11 });
}

#[test]
fn parser_facade_entity_query() {
    let source = InMemorySource {
        path: "doc.md".to_string(),
        lines: vec![
            "first line".to_string(),
            "see [[target#part]] here".to_string(),
        ],
    };
    let parser = Parser::new(&source);
    let location = Location {
        path: "doc.md".to_string(),
        line: 1,
        character: 8,
    };
    let (q, md) = parser.parse_entity_query(location).unwrap();
    assert_eq!(q.file_query, "target");
    assert_eq!(
        q.infile_query,
        Some(EntityInfileQuery::Heading("part".to_string()))
    );
    assert_eq!(md.line, 1);
    assert_eq!(md.cursor, 8);
    assert_eq!(md.path, "doc.md");
    assert_eq!(md.char_range, CharRange { start: 4, end: 19 });
}

#[test]
fn parser_facade_block_query() {
    let source = InMemorySource {
        path: "doc.md".to_string(),
        lines: vec!["look [[ findable words]] done".to_string()],
    };
    let parser = Parser::new(&source);
    let location = Location {
        path: "doc.md".to_string(),
        line: 0,
        character: 12,
    };
    let (q, md) = parser.parse_block_query(location).unwrap();
    assert_eq!(q.grep_string, "findable words");
    assert_eq!(md.char_range, CharRange { start: 5, end: 24 });
}

#[test]
fn parser_facade_missing_line() {
    let source = InMemorySource {
        path: "doc.md".to_string(),
        lines: vec!["only line".to_string()],
    };
    let parser = Parser::new(&source);
    let location = Location {
        path: "doc.md".to_string(),
        line: 5,
        character: 0,
    };
    assert!(parser.parse_entity_query(location).is_none());
    let elsewhere = Location {
        path: "other.md".to_string(),
        line: 0,
        character: 0,
    };
    assert!(parser.parse_block_query(elsewhere).is_none());
}

#[test]
fn line_string_fetches_line() {
    let source = InMemorySource {
        path: "doc.md".to_string(),
        lines: vec!["alpha".to_string(), "beta".to_string()],
    };
    let parser = Parser::new(&source);
    let location = Location {
        path: "doc.md".to_string(),
        line: 1,
        character: 0,
    };
    assert_eq!(parser.line_string(&location), Some("beta".to_string()));
    let missing = Location {
        path: "doc.md".to_string(),
        line: 2,
        character: 0,
    };
    assert_eq!(parser.line_string(&missing), None);
}
