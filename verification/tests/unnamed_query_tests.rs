use completions::matcher::MDLinkParser;
use completions::query::QuerySyntaxTypeInfo;

#[test]
fn basic_test() {
    let text = "fjkalf kdsjfkd  [[ fjakl fdjk]] fjdl kf j";
    let (d, _, _) = MDLinkParser::new(text, 50 - 21).parse_block().unwrap();
    assert_eq!("fjakl fdjk", d.grep_string)
}

#[test]
fn unclosed() {
    let text = "fjkalf kdsjfkd  [[ fjakl fdjk fjdl kf j";
    let (d, _, _) = MDLinkParser::new(text, 50 - 21).parse_block().unwrap();
    assert_eq!("fjakl fdjk", d.grep_string)
}

#[test]
fn multiple_closed() {
    let text = "fjka[[thisis ]] [[ fjakl fdjk]][[fjk]]j";
    let (d, _, _) = MDLinkParser::new(text, 50 - 21).parse_block().unwrap();
    assert_eq!("fjakl fdjk", d.grep_string)
}

#[test]
fn multiple_unclosed() {
    let text = "fjka[[thisis ]] [[ fjakl fdjk  jklfd slk [[fjk]]j";
    let (d, _, _) = MDLinkParser::new(text, 50 - 21).parse_block().unwrap();
    assert_eq!("fjakl fdjk", d.grep_string)
}

#[test]
fn not_unnamed_query() {
    let text = "fjka[[thisis ]] [[fjakl fdjkk]]  jklfd slk [[fjk]]j";
    assert!(MDLinkParser::new(text, 50 - 21).parse_block().is_none())
}

#[test]
fn test_escaped_brackets() {
    let text = r"fjka    [[ \[\[LATER\]\]]]";
    assert_eq!(
        MDLinkParser::new(text, 40 - 22)
            .parse_block()
            .map(|it| it.0.grep_string()),
        Some(r"[[LATER]]".to_string())
    )
}

#[test]
fn link_with_escaped_braket_display() {
    let text = r"fjka    [[file|\[\[HELLO\]\]]]";

    assert!(MDLinkParser::new(text, 40 - 22)
        .parse_entity()
        .map(|it| {
            match it.2.syntax_type_info {
                QuerySyntaxTypeInfo::Wiki { display: Some(s) } => s == r"\[\[HELLO\]\]",
                _ => false,
            }
        })
        .is_some_and(|it| it))
}
