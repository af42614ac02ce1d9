use quick_xml_nif::decode::parse;
use quick_xml_nif::error::{ErrorKind, ParseError};
use quick_xml_nif::term::Term;

fn text(s: &str) -> Term {
    Term::Str(s.to_string())
}

fn entry(key: &str, value: Term) -> (String, Term) {
    (key.to_string(), value)
}

fn text_node(s: &str) -> Term {
    Term::Mapping(vec![entry("$text", text(s))])
}

fn failure(kind: ErrorKind, detail: &str) -> ParseError {
    ParseError { kind, detail: detail.to_string() }
}

#[test]
fn root_with_attribute_and_child_becomes_a_map() {
    let outcome = parse("<root attr=\"1\"><child>text</child></root>".to_string());
    let expected = Term::Mapping(vec![entry("@attr", text("1")), entry("child", text_node("text"))]);
    assert_eq!(outcome, Ok(expected));
}

#[test]
fn nesting_is_mirrored() {
    let outcome = parse("<a><b><c>x</c></b></a>".to_string());
    let expected = Term::Mapping(vec![entry(
        "b",
        Term::Mapping(vec![entry("c", text_node("x"))]),
    )]);
    assert_eq!(outcome, Ok(expected));
}

#[test]
fn declaration_is_skipped() {
    let outcome = parse("<?xml version=\"1.0\"?><a><b/></a>".to_string());
    let expected = Term::Mapping(vec![entry("b", Term::Mapping(vec![]))]);
    assert_eq!(outcome, Ok(expected));
}

#[test]
fn empty_root_is_an_empty_map() {
    assert_eq!(parse("<a/>".to_string()), Ok(Term::Mapping(vec![])));
    assert_eq!(parse("<a></a>".to_string()), Ok(Term::Mapping(vec![])));
}

#[test]
fn root_text_is_kept_under_the_text_key() {
    assert_eq!(parse("<a>text</a>".to_string()), Ok(text_node("text")));
}

#[test]
fn keys_come_out_sorted_and_once() {
    let outcome = parse("<a><z>1</z><b>2</b><m>3</m><b>4</b></a>".to_string());
    let expected = Term::Mapping(vec![
        entry("b", text_node("4")),
        entry("m", text_node("3")),
        entry("z", text_node("1")),
    ]);
    assert_eq!(outcome, Ok(expected));
}

#[test]
fn successful_outcome_is_always_a_map() {
    for xml in ["<a/>", "<a><b>1</b></a>", "<r k=\"v\"/>", "<a>t</a>"] {
        match parse(xml.to_string()) {
            Ok(term) => assert!(term.is_mapping()),
            Err(err) => panic!("{:?}", err),
        }
    }
}

#[test]
fn leaf_text_reaches_the_host_as_text() {
    assert_eq!(
        parse("<a><n>42</n></a>".to_string()),
        Ok(Term::Mapping(vec![entry("n", text_node("42"))]))
    );
    assert_eq!(
        parse("<a><n>42.5</n></a>".to_string()),
        Ok(Term::Mapping(vec![entry("n", text_node("42.5"))]))
    );
    assert_eq!(
        parse("<a><n>99999999999999999999</n></a>".to_string()),
        Ok(Term::Mapping(vec![entry("n", text_node("99999999999999999999"))]))
    );
}

#[test]
fn bare_text_is_invalid_xml() {
    assert_eq!(
        parse("hello".to_string()),
        Err(failure(ErrorKind::InvalidXml, "syntax error: xml must have a node"))
    );
}

#[test]
fn truncated_document_is_unexpected_eof() {
    assert_eq!(parse("<a><b>".to_string()), Err(failure(ErrorKind::UnexpectedEof, "no details")));
    assert_eq!(parse("<a>".to_string()), Err(failure(ErrorKind::UnexpectedEof, "no details")));
}

#[test]
fn empty_document_is_unexpected_eof() {
    assert_eq!(parse("".to_string()), Err(failure(ErrorKind::UnexpectedEof, "no details")));
    assert_eq!(parse("<!-- c -->".to_string()), Err(failure(ErrorKind::UnexpectedEof, "no details")));
}

#[test]
fn mismatched_tags_are_malformed_xml() {
    match parse("<a></b>".to_string()) {
        Err(err) => {
            assert_eq!(err.kind, ErrorKind::MalformedXml);
            assert!(!err.detail.is_empty());
        }
        Ok(term) => panic!("{:?}", term),
    }
    assert_eq!(
        parse("<a><b></a>".to_string()),
        Err(failure(ErrorKind::MalformedXml, "Expecting </b> found </a>"))
    );
}

#[test]
fn invalid_markup_is_malformed_xml() {
    for xml in ["<a attr=\"1\" attr=\"2\"/>", "<a>&bogus;</a>", "<a b=1/>"] {
        match parse(xml.to_string()) {
            Err(err) => {
                assert_eq!(err.kind, ErrorKind::MalformedXml);
                assert!(!err.detail.is_empty());
            }
            Ok(term) => panic!("{:?}", term),
        }
    }
}

#[test]
fn parsing_twice_gives_equal_outcomes() {
    for xml in ["<root attr=\"1\"><child>text</child></root>", "<a><b>", "<a></b>", "hello", ""] {
        assert_eq!(parse(xml.to_string()), parse(xml.to_string()));
    }
}

#[test]
fn entities_and_cdata_are_resolved() {
    assert_eq!(parse("<a>&lt;</a>".to_string()), Ok(text_node("<")));
    assert_eq!(parse("<a><![CDATA[x]]></a>".to_string()), Ok(text_node("x")));
}

#[test]
fn attributes_are_prefixed() {
    let outcome = parse("<a b=\"1\">t</a>".to_string());
    let expected = Term::Mapping(vec![entry("$text", text("t")), entry("@b", text("1"))]);
    assert_eq!(outcome, Ok(expected));
}

#[test]
fn text_before_the_root_is_invalid_xml() {
    assert_eq!(
        parse("text<a/>".to_string()),
        Err(failure(ErrorKind::InvalidXml, "syntax error: xml must have a node"))
    );
}

#[test]
fn bad_character_reference_is_malformed_xml() {
    assert_eq!(
        parse("<a>&#xZZ;</a>".to_string()),
        Err(failure(ErrorKind::MalformedXml, "'Z' is not a valid hexadecimal character"))
    );
}
