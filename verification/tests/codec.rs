//! The JSON codec: parsing, serializing, escapes, numbers and the
//! byte-order mark.

use sbh::json::JsonValue;

fn parse(text: &str) -> JsonValue {
    JsonValue::parse_document(text).expect("document should parse")
}

fn parse_err(text: &str) -> sbh::error::Error {
    JsonValue::parse_document(text).expect_err("document should not parse")
}

#[test]
fn parses_scalars() {
    assert!(matches!(parse("null"), JsonValue::Null));
    assert!(matches!(parse("true"), JsonValue::Bool(true)));
    assert!(matches!(parse("false"), JsonValue::Bool(false)));
    assert!(matches!(parse("42"), JsonValue::Int(42)));
    assert!(matches!(parse("-7"), JsonValue::Int(-7)));
    assert!(matches!(parse("0"), JsonValue::Int(0)));
    match parse("\"hello\"") {
        JsonValue::Str(s) => assert_eq!(s, "hello"),
        _ => panic!("expected a string"),
    }
}

#[test]
fn parses_collections_and_whitespace() {
    let v = parse(" { \"a\" : [ 1 , 2 , 3 ] , \"b\" : { \"c\" : null } } ");
    let a = v.member("a").expect("a");
    match a {
        JsonValue::Arr(items) => {
            assert_eq!(items.len(), 3);
            assert!(matches!(items[0], JsonValue::Int(1)));
            assert!(matches!(items[2], JsonValue::Int(3)));
        }
        _ => panic!("expected an array"),
    }
    let b = v.member("b").expect("b");
    assert!(matches!(b.member("c"), Some(JsonValue::Null)));
    assert!(v.member("missing").is_none());
}

#[test]
fn parses_escapes() {
    match parse("\"a\\n\\t\\\"\\\\b\\/\\u0041\"") {
        JsonValue::Str(s) => assert_eq!(s, "a\n\t\"\\b/A"),
        _ => panic!("expected a string"),
    }
}

#[test]
fn parses_surrogate_pair() {
    match parse("\"\\uD83D\\uDE00\"") {
        JsonValue::Str(s) => assert_eq!(s, "\u{1F600}"),
        _ => panic!("expected a string"),
    }
}

#[test]
fn rejects_lone_surrogate() {
    parse_err("\"\\uD83D\"");
    parse_err("\"\\uDE00\"");
}

#[test]
fn rejects_fractions_exponents_and_leading_zeros() {
    parse_err("1.5");
    parse_err("1e3");
    parse_err("2E8");
    parse_err("01");
    parse_err("-");
}

#[test]
fn parses_i64_bounds() {
    assert!(matches!(parse("9223372036854775807"), JsonValue::Int(i64::MAX)));
    assert!(matches!(parse("-9223372036854775808"), JsonValue::Int(i64::MIN)));
    parse_err("9223372036854775808");
    parse_err("-9223372036854775809");
}

#[test]
fn rejects_trailing_garbage_and_unterminated_text() {
    parse_err("null null");
    parse_err("{\"a\":1");
    parse_err("\"open");
    parse_err("");
    parse_err("   ");
    parse_err("{\"a\" 1}");
}

#[test]
fn rejects_raw_control_characters_in_strings() {
    parse_err("\"a\nb\"");
}

#[test]
fn leading_bom_is_stripped() {
    let without = "{\"a\":[true,null]}";
    let with = format!("\u{feff}{}", without);
    let a = parse(&with);
    let b = parse(without);
    assert_eq!(a.to_text(), b.to_text());
}

#[test]
fn bom_in_the_middle_is_malformed() {
    let e = parse_err("{\"a\":\u{feff}1}");
    match e {
        sbh::error::Error::MalformedRecord(k) => assert_eq!(k, "json"),
        _ => panic!("expected a malformed record"),
    }
    // two leading byte-order marks are one too many
    parse_err("\u{feff}\u{feff}{}");
}

#[test]
fn bom_inside_a_string_is_content() {
    match parse("\"a\u{feff}b\"") {
        JsonValue::Str(s) => assert_eq!(s, "a\u{feff}b"),
        _ => panic!("expected a string"),
    }
}

#[test]
fn serializes_scalars_exactly() {
    assert_eq!(JsonValue::Null.to_text(), "null");
    assert_eq!(JsonValue::Bool(true).to_text(), "true");
    assert_eq!(JsonValue::Bool(false).to_text(), "false");
    assert_eq!(JsonValue::Int(0).to_text(), "0");
    assert_eq!(JsonValue::Int(-12).to_text(), "-12");
    assert_eq!(JsonValue::Int(i64::MIN).to_text(), "-9223372036854775808");
    assert_eq!(JsonValue::Str(String::from("a\"b\\c\nd")).to_text(), "\"a\\\"b\\\\c\\nd\"");
    assert_eq!(JsonValue::Str(String::from("\u{1}")).to_text(), "\"\\u0001\"");
}

#[test]
fn serializes_collections_exactly() {
    let v = JsonValue::Obj(vec![
        (String::from("a"), JsonValue::Arr(vec![JsonValue::Int(1), JsonValue::Null])),
        (String::from("b"), JsonValue::Str(String::from("x"))),
    ]);
    assert_eq!(v.to_text(), "{\"a\":[1,null],\"b\":\"x\"}");
}

#[test]
fn round_trips_through_text() {
    let text = "{\"a\":[1,null,\"z\"],\"b\":{\"c\":true},\"d\":-5}";
    let v = parse(text);
    assert_eq!(v.to_text(), text);
}

#[test]
fn emitted_text_is_json_to_an_independent_parser() {
    let v = JsonValue::Obj(vec![
        (String::from("title"), JsonValue::Str(String::from("a \"quoted\" \u{1F600} title\n"))),
        (String::from("n"), JsonValue::Int(-42)),
        (String::from("flag"), JsonValue::Bool(true)),
    ]);
    let text = v.to_text();
    let independent: serde_json::Value = serde_json::from_str(&text).expect("independent parse");
    assert_eq!(independent["title"], "a \"quoted\" \u{1F600} title\n");
    assert_eq!(independent["n"], -42);
    assert_eq!(independent["flag"], true);
}

#[test]
fn agrees_with_independent_parser_on_escapes() {
    let text = "{\"s\":\"\\u0041\\uD83D\\uDE00\\t\"}";
    let ours = parse(text);
    let theirs: serde_json::Value = serde_json::from_str(text).unwrap();
    match ours.member("s") {
        Some(JsonValue::Str(s)) => assert_eq!(theirs["s"].as_str().unwrap(), s.as_str()),
        _ => panic!("expected a string"),
    }
}
