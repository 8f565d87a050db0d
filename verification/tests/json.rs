use router::form::{encode_form, parse_form};
use router::json::{parse_json, render_json, Json};
use router::utils::push_decimal;

fn json_text_of(s: &str) -> Json {
    Json::Str(s.to_string())
}

#[test]
fn parse_json_reads_members_in_document_order() {
    let doc = parse_json(br#"{"b": 1, "a": [true, null, "x"], "c": {"d": -7}}"#).unwrap();
    assert_eq!(
        doc,
        Json::Object(vec![
            ("b".to_string(), Json::Int(1)),
            (
                "a".to_string(),
                Json::Array(vec![Json::Bool(true), Json::Null, json_text_of("x")]),
            ),
            ("c".to_string(), Json::Object(vec![("d".to_string(), Json::Int(-7))])),
        ])
    );
}

#[test]
fn parse_json_keeps_other_numbers_by_their_text() {
    assert_eq!(parse_json(b"12.5"), Some(Json::Number("12.5".to_string())));
    assert_eq!(
        parse_json(b"18446744073709551615"),
        Some(Json::Number("18446744073709551615".to_string()))
    );
    assert_eq!(parse_json(b"9223372036854775807"), Some(Json::Int(i64::MAX)));
}

#[test]
fn parse_json_refuses_what_is_no_json() {
    assert_eq!(parse_json(b""), None);
    assert_eq!(parse_json(b"{\"a\": }"), None);
    assert_eq!(parse_json(b"[1, 2] trailing"), None);
}

#[test]
fn render_json_writes_compact_text() {
    let doc = Json::Object(vec![
        ("name".to_string(), json_text_of("a \"quoted\" word")),
        ("n".to_string(), Json::Int(-3)),
        ("list".to_string(), Json::Array(vec![Json::Null, Json::Bool(false)])),
        ("real".to_string(), Json::Number("1.5".to_string())),
    ]);
    assert_eq!(
        render_json(&doc).unwrap(),
        r#"{"name":"a \"quoted\" word","n":-3,"list":[null,false],"real":1.5}"#
    );
}

#[test]
fn render_json_refuses_a_number_that_is_none() {
    assert_eq!(render_json(&Json::Number("twelve".to_string())), None);
    assert_eq!(
        render_json(&Json::Array(vec![Json::Int(1), Json::Number("--1".to_string())])),
        None
    );
}

#[test]
fn rendered_json_parses_back_to_the_same_document() {
    let doc = Json::Object(vec![
        ("k".to_string(), json_text_of("v")),
        ("nested".to_string(), Json::Object(vec![("i".to_string(), Json::Int(5))])),
    ]);
    let written = render_json(&doc).unwrap();
    assert_eq!(parse_json(written.as_bytes()), Some(doc));
}

#[test]
fn member_lookup_finds_the_first_member_under_a_key() {
    let doc = Json::Object(vec![
        ("a".to_string(), Json::Int(1)),
        ("b".to_string(), json_text_of("two")),
        ("a".to_string(), Json::Int(3)),
    ]);
    assert_eq!(doc.member("a"), Some(&Json::Int(1)));
    assert_eq!(doc.text_at("b"), Some("two".to_string()));
    assert_eq!(doc.int_at("b"), None);
    assert_eq!(doc.member("c"), None);
    assert_eq!(Json::Int(1).member("a"), None);
}

#[test]
fn optional_text_is_absent_for_null_and_missing_members() {
    let doc = Json::Object(vec![
        ("gone".to_string(), Json::Null),
        ("here".to_string(), json_text_of("x")),
        ("odd".to_string(), Json::Int(1)),
    ]);
    assert_eq!(doc.optional_text_at("gone"), Some(None));
    assert_eq!(doc.optional_text_at("missing"), Some(None));
    assert_eq!(doc.optional_text_at("here"), Some(Some("x".to_string())));
    assert_eq!(doc.optional_text_at("odd"), None);
}

#[test]
fn encode_form_escapes_what_a_form_must_escape() {
    let pairs = vec![
        ("a b".to_string(), "c&d".to_string()),
        ("e".to_string(), "f=g".to_string()),
    ];
    assert_eq!(encode_form(&pairs).unwrap(), "a+b=c%26d&e=f%3Dg");
}

#[test]
fn parse_form_reads_pairs_in_order() {
    assert_eq!(
        parse_form("redirectResult=abc%2Fdef&type=complete"),
        Some(vec![
            ("redirectResult".to_string(), "abc/def".to_string()),
            ("type".to_string(), "complete".to_string()),
        ])
    );
    assert_eq!(parse_form(""), Some(vec![]));
}

#[test]
fn push_decimal_writes_signed_decimal_text() {
    let mut out = b"x".to_vec();
    push_decimal(&mut out, 0);
    out.push(b',');
    push_decimal(&mut out, 7);
    out.push(b',');
    push_decimal(&mut out, 1130);
    out.push(b',');
    push_decimal(&mut out, -45);
    out.push(b',');
    push_decimal(&mut out, i64::MAX);
    out.push(b',');
    push_decimal(&mut out, i64::MIN);
    assert_eq!(
        String::from_utf8(out).unwrap(),
        "x0,7,1130,-45,9223372036854775807,-9223372036854775808"
    );
}
