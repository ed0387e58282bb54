use toolbelt::json::{Json, JsonObject};
use toolbelt::pairs::{collect, find, set_pair};
use toolbelt::text::{decimal, hex, is_before, signed, strip_prefix};

fn json(text: &str) -> Json {
    Json::parse(text).unwrap_or_else(|e| panic!("not JSON: {e}"))
}

fn object(text: &str) -> JsonObject {
    match json(text) {
        Json::Object(o) => o,
        _ => panic!("not an object: {text}"),
    }
}

fn pair(key: &str, value: &str) -> (String, String) {
    (key.to_string(), value.to_string())
}

#[test]
fn values_are_read_and_written() {
    let text = r#"{"a":[null,true,-7,18446744073709551615,1.5,"q\"\n"],"b":{}}"#;
    assert_eq!(json(text).to_text(), text);
    assert_eq!(Json::parse_bytes(text.as_bytes()).ok().unwrap().to_text(), text);
    assert_eq!(json(text).to_bytes().ok().unwrap(), text.as_bytes().to_vec());
    assert_eq!(json(text).duplicate().to_text(), text);
    assert_eq!(Json::from_value(json(text).to_value()).to_text(), text);
    assert_eq!(json("[1]").to_pretty_text(), "[\n  1\n]");
    assert!(Json::parse("[").is_err());
    assert!(Json::parse_bytes(b"\xff").is_err());
    assert_eq!(json("\"x\"").as_str(), Some("x"));
    assert_eq!(json("1").as_str(), None);
}

#[test]
fn values_read_back_as_deep_as_can_be() {
    let nested = |depth: usize| format!("{}{}", "[".repeat(depth), "]".repeat(depth));
    assert_eq!(json(&nested(127)).to_text(), nested(127));
    assert!(Json::parse(&nested(128)).is_err());
}

#[test]
fn floats_are_read_as_floats() {
    for text in ["1.0", "0.1", "-0.0", "1e300", "-2.5e-7", "5e-324", "1.7976931348623157e308", "1e16", "123456789.5"] {
        let value: serde_json::Value = serde_json::from_str(text).unwrap();
        assert!(value.is_f64(), "no float: {text}");
        let again: serde_json::Value = serde_json::from_str(&Json::from_value(value).to_text()).unwrap();
        assert!(again.is_f64(), "no float: {again}");
    }
}

#[test]
fn members_are_in_the_order_of_their_keys() {
    let o = object(r#"{ "b": 1, "a": 2, "b": 3 }"#);
    assert_eq!(o.len(), 2);
    assert_eq!(o.key(0), "a");
    assert_eq!(o.value(1).to_text(), "3");
    let o = o.insert("aa".to_string(), json("4")).insert("a".to_string(), json("5")).insert("c".to_string(), json("6"));
    assert_eq!(Json::Object(o.duplicate()).to_text(), r#"{"a":5,"aa":4,"b":3,"c":6}"#);
    assert_eq!(o.get("aa").unwrap().to_text(), "4");
    assert!(o.get("z").is_none());
    assert_eq!(Json::Object(o.without(&vec!["aa", "c", "x"])).to_text(), r#"{"a":5,"b":3}"#);
    assert_eq!(JsonObject::empty().len(), 0);
}

#[test]
fn pairs_are_written_and_found() {
    let pairs = vec![pair("a", "1"), pair("b", "2")];
    assert_eq!(find(&pairs, "b").map(|v| v.as_str()), Some("2"));
    assert!(find(&pairs, "c").is_none());
    let pairs = set_pair(pairs, "a".to_string(), "3".to_string());
    assert_eq!(pairs, vec![pair("a", "3"), pair("b", "2")]);
    let pairs = set_pair(pairs, "c".to_string(), "4".to_string());
    assert_eq!(pairs, vec![pair("a", "3"), pair("b", "2"), pair("c", "4")]);
    let collected = collect(vec![pair("x", "1"), pair("y", "2"), pair("x", "3")]);
    assert_eq!(collected, vec![pair("x", "3"), pair("y", "2")]);
}

#[test]
fn numerals_and_prefixes() {
    assert_eq!(decimal(0), "0");
    assert_eq!(decimal(1234567890), "1234567890");
    assert_eq!(signed(-105), "-105");
    assert_eq!(signed(i32::MAX), "2147483647");
    assert_eq!(hex(0x1af, 5), "001af");
    assert_eq!(hex(0x1af, 2), "af");
    assert_eq!(strip_prefix("a.b", "a."), Some("b"));
    assert_eq!(strip_prefix("é.b", "é."), Some("b"));
    assert_eq!(strip_prefix("a.b", "b"), None);
    assert_eq!(strip_prefix("a", "ab"), None);
    assert!(is_before("a", "b"));
    assert!(is_before("a", "aa"));
    assert!(!is_before("b", "a"));
    assert!(!is_before("a", "a"));
    assert!(is_before("", "a"));
}
