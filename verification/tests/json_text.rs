use arbitrage_scanner::json::{Json, JsonNumber};
use arbitrage_scanner::text::{parse_unsigned_exec, replace_pair_exec, str_eq, strip_suffix, u64_to_text};

fn s(t: &str) -> Json {
    Json::Str(t.to_string())
}

fn obj(members: Vec<(&str, Json)>) -> Json {
    Json::Object(members.into_iter().map(|(k, v)| (k.to_string(), v)).collect())
}

fn doc() -> Json {
    obj(vec![
        ("result", obj(vec![("status", s("success")), ("list", Json::Array(vec![s("a"), s("b")]))])),
        ("a/b", s("slash")),
        ("m~n", s("tilde")),
        ("", s("empty")),
    ])
}

#[test]
fn pointer_lookups() {
    let d = doc();
    assert_eq!(d.pointer("/result/status").and_then(|v| v.as_str()), Some("success"));
    assert_eq!(d.pointer("/result/list/1").and_then(|v| v.as_str()), Some("b"));
    assert!(d.pointer("/result/list/2").is_none());
    assert!(d.pointer("/result/list/01").is_none());
    assert!(d.pointer("/result/list/+1").is_none());
    assert_eq!(d.pointer("/a~1b").and_then(|v| v.as_str()), Some("slash"));
    assert_eq!(d.pointer("/m~0n").and_then(|v| v.as_str()), Some("tilde"));
    assert_eq!(d.pointer("/").and_then(|v| v.as_str()), Some("empty"));
    assert!(d.pointer("result").is_none());
    assert!(matches!(d.pointer(""), Some(Json::Object(_))));
    assert!(d.pointer("/result/status/x").is_none());
}

#[test]
fn member_access() {
    let d = doc();
    assert!(d.get("nothing").is_none());
    assert!(s("x").get("result").is_none());
    assert_eq!(d.get("result").and_then(|r| r.get("status")).and_then(|v| v.as_str()), Some("success"));
    let n = Json::Number(JsonNumber { text: "12".to_string(), unsigned: Some(12), float_decimal: None });
    assert_eq!(n.as_u64(), Some(12));
    assert_eq!(s("12").as_u64(), None);
    assert!(Json::Null.is_null());
    assert_eq!(Json::Bool(false).as_bool(), Some(false));
    let taken = d.take_member("a/b");
    assert_eq!(taken.as_ref().and_then(|v| v.as_str()), Some("slash"));
}

#[test]
fn unsigned_parsing() {
    assert_eq!(parse_unsigned_exec("1597026383085", u64::MAX), Some(1597026383085));
    assert_eq!(parse_unsigned_exec("+7", u64::MAX), Some(7));
    assert_eq!(parse_unsigned_exec("18446744073709551615", u64::MAX), Some(u64::MAX));
    assert_eq!(parse_unsigned_exec("18446744073709551616", u64::MAX), None);
    assert_eq!(parse_unsigned_exec("-1", u64::MAX), None);
    assert_eq!(parse_unsigned_exec("", u64::MAX), None);
    assert_eq!(parse_unsigned_exec("+", u64::MAX), None);
    assert_eq!(parse_unsigned_exec("12a", u64::MAX), None);
    assert_eq!(parse_unsigned_exec("300", 255), None);
    for t in ["0", "42", "+99", "007"] {
        assert_eq!(parse_unsigned_exec(t, u64::MAX), t.parse::<u64>().ok());
    }
}

#[test]
fn texts() {
    assert_eq!(u64_to_text(0), "0");
    assert_eq!(u64_to_text(1700000000), "1700000000");
    assert_eq!(u64_to_text(u64::MAX), u64::MAX.to_string());
    assert_eq!(replace_pair_exec("a~1b~01", '~', '1', '/'), "a/b~01".replace("~1", "/"));
    assert_eq!(replace_pair_exec("~~11", '~', '1', '/'), "~/1");
    assert!(str_eq("abc", "abc"));
    assert!(!str_eq("abc", "abd"));
    assert_eq!(strip_suffix("BTCUSDT", "USDT"), Some("BTC"));
    assert_eq!(strip_suffix("USD", "USDT"), None);
}
