use transmission_rpc_types::json::{find_member, parse_json, Json};

#[test]
fn parses_literals() {
    assert_eq!(parse_json("null"), Some(Json::Null));
    assert_eq!(parse_json("true"), Some(Json::Bool(true)));
    assert_eq!(parse_json("false"), Some(Json::Bool(false)));
    assert_eq!(parse_json("  null  "), Some(Json::Null));
}

#[test]
fn parses_integers() {
    assert_eq!(parse_json("0"), Some(Json::Int(0)));
    assert_eq!(parse_json("42"), Some(Json::Int(42)));
    assert_eq!(parse_json("-7"), Some(Json::Int(-7)));
    assert_eq!(
        parse_json("9223372036854775807"),
        Some(Json::Int(i64::MAX))
    );
    assert_eq!(
        parse_json("-9223372036854775808"),
        Some(Json::Int(i64::MIN))
    );
}

#[test]
fn out_of_range_integers_keep_raw_text() {
    assert_eq!(
        parse_json("9223372036854775808"),
        Some(Json::Num(String::from("9223372036854775808")))
    );
    assert_eq!(
        parse_json("184467440737095516150"),
        Some(Json::Num(String::from("184467440737095516150")))
    );
}

#[test]
fn fractional_numbers_keep_raw_text() {
    assert_eq!(parse_json("3.14"), Some(Json::Num(String::from("3.14"))));
    assert_eq!(parse_json("-0.5"), Some(Json::Num(String::from("-0.5"))));
    assert_eq!(parse_json("1e3"), Some(Json::Num(String::from("1e3"))));
    assert_eq!(parse_json("2E-2"), Some(Json::Num(String::from("2E-2"))));
}

#[test]
fn parses_strings_with_escapes() {
    assert_eq!(parse_json("\"\""), Some(Json::Text(String::new())));
    assert_eq!(parse_json("\"abc\""), Some(Json::Text(String::from("abc"))));
    assert_eq!(
        parse_json("\"a\\\"b\\\\c\\/d\\n\\t\\r\\b\\f\""),
        Some(Json::Text(String::from("a\"b\\c/d\n\t\r\u{8}\u{c}")))
    );
    assert_eq!(
        parse_json("\"\\u0041\\u00e9\""),
        Some(Json::Text(String::from("A\u{e9}")))
    );
}

#[test]
fn surrogate_pairs_combine() {
    assert_eq!(
        parse_json("\"\\ud83d\\ude00\""),
        Some(Json::Text(String::from("\u{1f600}")))
    );
    assert_eq!(parse_json("\"\\ud83d\""), None);
    assert_eq!(parse_json("\"\\ude00\""), None);
}

#[test]
fn raw_unicode_passes_through() {
    assert_eq!(
        parse_json("\"na\u{ef}ve \u{1f600}\""),
        Some(Json::Text(String::from("na\u{ef}ve \u{1f600}")))
    );
}

#[test]
fn parses_arrays() {
    assert_eq!(parse_json("[]"), Some(Json::List(vec![])));
    assert_eq!(
        parse_json("[1, \"two\", null, [true]]"),
        Some(Json::List(vec![
            Json::Int(1),
            Json::Text(String::from("two")),
            Json::Null,
            Json::List(vec![Json::Bool(true)]),
        ]))
    );
}

#[test]
fn parses_objects() {
    assert_eq!(parse_json("{}"), Some(Json::Object(vec![])));
    assert_eq!(
        parse_json("{ \"a\" : 1 , \"b\" : [2] }"),
        Some(Json::Object(vec![
            (String::from("a"), Json::Int(1)),
            (String::from("b"), Json::List(vec![Json::Int(2)])),
        ]))
    );
}

#[test]
fn duplicate_member_lookup_takes_first() {
    let j = parse_json("{\"a\":1,\"a\":2}").expect("parses");
    match find_member(&j, "a") {
        Some(v) => assert_eq!(*v, Json::Int(1)),
        None => panic!("member a present"),
    }
}

#[test]
fn find_member_on_missing_key() {
    let j = parse_json("{\"a\":1}").expect("parses");
    assert!(find_member(&j, "b").is_none());
}

#[test]
fn rejects_malformed_text() {
    assert_eq!(parse_json(""), None);
    assert_eq!(parse_json("   "), None);
    assert_eq!(parse_json("nul"), None);
    assert_eq!(parse_json("tru"), None);
    assert_eq!(parse_json("{"), None);
    assert_eq!(parse_json("[1,"), None);
    assert_eq!(parse_json("[1 2]"), None);
    assert_eq!(parse_json("{\"a\"}"), None);
    assert_eq!(parse_json("{\"a\":}"), None);
    assert_eq!(parse_json("{a:1}"), None);
    assert_eq!(parse_json("\"unclosed"), None);
    assert_eq!(parse_json("1 2"), None);
    assert_eq!(parse_json("07x"), None);
    assert_eq!(parse_json("-"), None);
    assert_eq!(parse_json("1."), None);
    assert_eq!(parse_json("1e"), None);
    assert_eq!(parse_json("\"bad\\q\""), None);
}

#[test]
fn trailing_whitespace_is_accepted() {
    assert_eq!(parse_json(" {\"a\":1} \n"), parse_json("{\"a\":1}"));
    assert_eq!(parse_json("[1] junk"), None);
}
