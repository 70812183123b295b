use completions::matcher::MDLinkParser;
use completions::query::{CharRange, EntityInfileQuery, NamedRefCmdQuery, QuerySyntaxTypeInfo};

#[test]
fn test_file() {
    let line = "fjlfjdl fjkl lkjfkld fklasj   [[file]] jfkdlsa fjdkl ";

    let (parsed, range, ..) = MDLinkParser::new(line, 55 - 21).parse_entity().unwrap();

    assert_eq!(
        parsed,
        NamedRefCmdQuery {
            file_query: "file".to_string(),
            infile_query: None
        }
    );

    assert_eq!(
        range,
        CharRange {
            start: 51 - 21,
            end: 59 - 21
        }
    )
}

#[test]
fn test_infile_ref_heading() {
    let line = "fjlfjdl fjkl lkjfkld fklasj   [[file#heading]] jfkdlsa fjdkl ";

    let (parsed, ..) = MDLinkParser::new(line, 58 - 19).parse_entity().unwrap();

    assert_eq!(
        parsed,
        NamedRefCmdQuery {
            file_query: "file".to_string(),
            infile_query: Some(EntityInfileQuery::Heading("heading".to_string()))
        }
    )
}

#[test]
fn test_infile_ref_index() {
    let line = "fjlfjdl fjkl lkjfkld fklasj   [[file#^index]] fjdlkf jsdakl";

    let (parsed, ..) = MDLinkParser::new(line, 58 - 19).parse_entity().unwrap();

    assert_eq!(
        parsed,
        NamedRefCmdQuery {
            file_query: "file".to_string(),
            infile_query: Some(EntityInfileQuery::Index("index".to_string()))
        }
    )
}

#[test]
fn test_blank_infile_index() {
    let line = "fjlfjdl fjkl lkjfkld fklasj   [[file#^]]";

    let (parsed, ..) = MDLinkParser::new(line, 58 - 19).parse_entity().unwrap();

    assert_eq!(
        parsed,
        NamedRefCmdQuery {
            file_query: "file".to_string(),
            infile_query: Some(EntityInfileQuery::Index("".to_string()))
        }
    )
}

#[test]
fn test_blank_infile_heading() {
    let line = "fjlfjdl fjkl lkjfkld fklasj   [[file#]]";

    let (parsed, ..) = MDLinkParser::new(line, 58 - 22).parse_entity().unwrap();

    assert_eq!(
        parsed,
        NamedRefCmdQuery {
            file_query: "file".to_string(),
            infile_query: Some(EntityInfileQuery::Heading("".to_string()))
        }
    )
}

#[test]
fn test_no_closing() {
    let line = "fjlfjdl fjkl lkjfkld fklasj   [[this is a query jf dkljfa ";

    let (parsed, ..) = MDLinkParser::new(line, 68 - 21).parse_entity().unwrap();

    assert_eq!(
        parsed,
        NamedRefCmdQuery {
            file_query: "this is a query".to_string(),
            infile_query: None
        }
    )
}

#[test]
fn test_markdown_link() {
    let line = "fjlfjdl fjkl lkjfkld fklasj   [this is a query](file) jfkdlsa fjdkl ";
    let (parsed, range, info) = MDLinkParser::new(line, 53 - 21).parse_entity().unwrap();

    assert_eq!(
        parsed,
        NamedRefCmdQuery {
            file_query: "file".to_string(),
            infile_query: None
        }
    );

    assert_eq!(
        range,
        CharRange {
            start: 51 - 21,
            end: 74 - 21
        }
    );
    assert_eq!(
        info.syntax_type_info,
        QuerySyntaxTypeInfo::Markdown {
            display: "this is a query".to_string()
        }
    );
}

#[test]
fn test_markdown_link_no_closing() {
    let line = "fjlfjdl fjkl lkjfkld fklasj   [this is a query](file jfkldas fjklsd jfkls";
    let (parsed, range, info) = MDLinkParser::new(line, 81 - 21).parse_entity().unwrap();
    assert_eq!(
        parsed,
        NamedRefCmdQuery {
            file_query: "file jfkldas".to_string(),
            infile_query: None
        }
    );
    assert_eq!(
        range,
        CharRange {
            start: 51 - 21,
            end: 81 - 21
        }
    );
    assert_eq!(
        info.syntax_type_info,
        QuerySyntaxTypeInfo::Markdown {
            display: "this is a query".to_string()
        }
    );
}

#[test]
fn test_markdown_closed_infile_query() {
    let line = "fjlfjdl fjkl lkjfkld fklasj   [this is a query](file#heading) jfkdlsa fjdkl ";
    let (parsed, range, info) = MDLinkParser::new(line, 63 - 21).parse_entity().unwrap();
    assert_eq!(
        parsed,
        NamedRefCmdQuery {
            file_query: "file".to_string(),
            infile_query: Some(EntityInfileQuery::Heading("heading".to_string()))
        }
    );
    assert_eq!(
        range,
        CharRange {
            start: 51 - 21,
            end: 82 - 21
        }
    );
    assert_eq!(
        info.syntax_type_info,
        QuerySyntaxTypeInfo::Markdown {
            display: "this is a query".to_string()
        }
    );
}

#[test]
fn test_markdown_closed_infile_query_index() {
    let line = "fjlfjdl fjkl lkjfkld fklasj   [this is a query](file#^index) jfkdlsa fjdkl ";
    let (parsed, range, info) = MDLinkParser::new(line, 63 - 21).parse_entity().unwrap();
    assert_eq!(
        parsed,
        NamedRefCmdQuery {
            file_query: "file".to_string(),
            infile_query: Some(EntityInfileQuery::Index("index".to_string()))
        }
    );
    assert_eq!(
        range,
        CharRange {
            start: 51 - 21,
            end: 81 - 21
        }
    );
    assert_eq!(
        info.syntax_type_info,
        QuerySyntaxTypeInfo::Markdown {
            display: "this is a query".to_string()
        }
    );
}

#[test]
fn markdown_syntax_display_text() {
    let line = "fjlfjdl fjkl lkjfkld fklasj   [](file#^index) jfkdlsa fjdkl ";
    let (_parsed, _range, info) = MDLinkParser::new(line, 63 - 21).parse_entity().unwrap();
    assert_eq!(info.display(), Some(""))
}

#[test]
fn wiki_syntax_display_text_none() {
    let line = "fjlfjdl fjkl lkjfkld fklasj   [[file#^index|]] jfkdlsa fjdkl ";
    let (_parsed, _range, info) = MDLinkParser::new(line, 63 - 21).parse_entity().unwrap();
    assert_eq!(info.display(), Some(""))
}

#[test]
fn wiki_syntax_display_text_some() {
    let line = "fjlfjdl fjkl lkjfkld fklasj   [[file#^index|some]] jfkdlsa fjdkl ";
    let (_parsed, _range, info) = MDLinkParser::new(line, 63 - 21).parse_entity().unwrap();
    assert_eq!(info.display(), Some("some"))
}

#[test]
fn wiki_unclosed_with_multiple_links() {
    let line = "fjlfjdl fjkl lkjfkld fklasj   [[file query jfkdlsa fjdkl [[file#^index|some]]";
    let (parsed, _range, _info) = MDLinkParser::new(line, 71 - 21).parse_entity().unwrap();
    assert_eq!(parsed.file_query, "file query jfkdlsa")
}

#[test]
fn wiki_unclosed_after_link() {
    let line = "fjlfjdl fjkl lkjfkld [[link]] fklasj   [[file query jfkdlsa fjdkl";
    let (parsed, _range, _info) = MDLinkParser::new(line, 72 - 21).parse_entity().unwrap();
    assert_eq!(parsed.file_query, "file query")
}

#[test]
fn md_unclosed_before_link() {
    let line = "fjlfjdl fjkl lkjfkld [display](file query f sdklafjdkl  j[another linke](file)";
    let (parsed, _range, info) = MDLinkParser::new(line, 62 - 21).parse_entity().unwrap();
    assert_eq!(parsed.file_query, "file query");
    assert_eq!(info.display(), Some("display"))
}

#[test]
fn md_unclosed_after_link() {
    let line =
        "fjlfjdl fjkl lkjfkld [display](file) f sdklafjdkl [another](fjsdklf dsjkl fdj asklfsdjklf ";
    let (parsed, _range, info) = MDLinkParser::new(line, 94 - 21).parse_entity().unwrap();
    assert_eq!(parsed.file_query, "fjsdklf dsjkl");
    assert_eq!(info.display(), Some("another"))
}

#[test]
fn wiki_unclosed_with_special_chars() {
    let line =
        "fjlfjdl fjkl lkjfkld fklasj   [[file query # heading with a # in it and a ^ ajfkl dfkld jlk";
    let (parsed, _, _) = MDLinkParser::new(line, 102 - 21).parse_entity().unwrap();
    assert_eq!(parsed.file_query, "file query ");
    assert_eq!(
        parsed.infile_query,
        Some(EntityInfileQuery::Heading(
            " heading with a # in it and a ^ ajfkl".to_string()
        ))
    )
}
