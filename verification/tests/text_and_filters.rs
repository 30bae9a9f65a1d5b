use cmdb::cloud_api::api::filter::clean_cloud_account_filter;
use cmdb::cmdb::api::filter::{clean_query_filter, key_type, whitelist_of, FilterValueType};
use cmdb::json::{JsonMap, JsonNumber, JsonValue};
use cmdb::table::Table;
use cmdb::text::{concat2, concat3, i64_to_decimal, parse_i64, str_equals, strs_equal, u64_to_decimal};

fn text(s: &str) -> JsonValue {
    JsonValue::Str(s.to_string())
}

fn object(members: Vec<(&str, JsonValue)>) -> JsonMap {
    JsonMap { entries: members.into_iter().map(|(k, v)| (k.to_string(), v)).collect() }
}

#[test]
fn parse_i64_accepts_signed_decimals() {
    assert_eq!(parse_i64("0"), Some(0));
    assert_eq!(parse_i64("42"), Some(42));
    assert_eq!(parse_i64("+7"), Some(7));
    assert_eq!(parse_i64("-15"), Some(-15));
    assert_eq!(parse_i64("007"), Some(7));
    assert_eq!(parse_i64("9223372036854775807"), Some(i64::MAX));
    assert_eq!(parse_i64("-9223372036854775808"), Some(i64::MIN));
}

#[test]
fn parse_i64_refuses_what_str_parse_refuses() {
    for s in ["", "-", "+", "1.5", " 1", "1 ", "abc", "--1", "9223372036854775808", "-9223372036854775809", "99999999999999999999999"] {
        assert_eq!(parse_i64(s), s.parse::<i64>().ok(), "input {:?}", s);
        assert_eq!(parse_i64(s), None);
    }
}

#[test]
fn decimal_texts_match_display() {
    for n in [0u64, 7, 10, 99, 100, 123456789, u64::MAX] {
        assert_eq!(u64_to_decimal(n), n.to_string());
    }
    for n in [0i64, -1, 5, -10, 300, i64::MIN, i64::MAX] {
        assert_eq!(i64_to_decimal(n), n.to_string());
    }
}

#[test]
fn text_helpers_compare_and_join() {
    assert!(str_equals(&"abc".to_string(), "abc"));
    assert!(!str_equals(&"abc".to_string(), "abd"));
    assert!(strs_equal("", ""));
    assert!(!strs_equal("a", "ab"));
    assert_eq!(concat2("ab", "cd"), "abcd");
    assert_eq!(concat3("a", "-", "b"), "a-b");
}

#[test]
fn json_map_lookup_and_update() {
    let mut m = object(vec![("a", text("1")), ("b", JsonValue::Bool(true))]);
    assert_eq!(m.get("b"), Some(&JsonValue::Bool(true)));
    assert_eq!(m.get("c"), None);
    assert_eq!(m.position("b"), Some(1));
    m.insert("a".to_string(), text("2"));
    assert_eq!(m.len(), 2);
    assert_eq!(m.get("a"), Some(&text("2")));
    m.insert("c".to_string(), JsonValue::Null);
    assert_eq!(m.len(), 3);
    assert_eq!(m.take("a"), Some(text("2")));
    assert_eq!(m.get("a"), None);
    assert_eq!(m.len(), 2);
}

#[test]
fn json_number_reading() {
    assert_eq!(JsonNumber::PosInt(5).as_i64(), Some(5));
    assert_eq!(JsonNumber::PosInt(u64::MAX).as_i64(), None);
    assert_eq!(JsonNumber::NegInt(-5).as_i64(), Some(-5));
    assert_eq!(JsonNumber::NegInt(-5).as_u64(), None);
    assert_eq!(JsonNumber::from_i64(-3), JsonNumber::NegInt(-3));
    assert_eq!(JsonNumber::from_i64(3), JsonNumber::PosInt(3));
    assert_eq!(JsonValue::Str("x".to_string()).as_string(), Some("x".to_string()));
    assert_eq!(JsonValue::Bool(false).as_bool(), Some(false));
    assert!(!JsonValue::Null.is_string());
}

#[test]
fn coerce_under_int_keys_parses_strings() {
    assert_eq!(FilterValueType::Int.coerce(text("5")), Some(JsonValue::Number(JsonNumber::PosInt(5))));
    assert_eq!(FilterValueType::Int.coerce(text("-5")), Some(JsonValue::Number(JsonNumber::NegInt(-5))));
    assert_eq!(FilterValueType::Int.coerce(text("five")), None);
    assert_eq!(FilterValueType::Int.coerce(JsonValue::Number(JsonNumber::PosInt(u64::MAX))), None);
    assert_eq!(FilterValueType::Int.coerce(JsonValue::Bool(true)), None);
    assert_eq!(FilterValueType::Int.coerce(JsonValue::Number(JsonNumber::PosInt(9))), Some(JsonValue::Number(JsonNumber::PosInt(9))));
}

#[test]
fn coerce_under_string_keys_keeps_only_strings() {
    assert_eq!(FilterValueType::Str.coerce(text("5")), Some(text("5")));
    assert_eq!(FilterValueType::Str.coerce(JsonValue::Number(JsonNumber::PosInt(5))), None);
}

#[test]
fn coerce_is_idempotent_on_examples() {
    for v in [text("12"), text("x"), JsonValue::Number(JsonNumber::NegInt(-1)), JsonValue::Null] {
        for t in [FilterValueType::Int, FilterValueType::Str] {
            if let Some(c) = t.coerce(v.clone_value()) {
                assert_eq!(t.coerce(c.clone_value()), Some(c));
            }
        }
    }
}

trait CloneValue {
    fn clone_value(&self) -> JsonValue;
}

impl CloneValue for JsonValue {
    fn clone_value(&self) -> JsonValue {
        match self {
            JsonValue::Null => JsonValue::Null,
            JsonValue::Bool(b) => JsonValue::Bool(*b),
            JsonValue::Number(n) => JsonValue::Number(*n),
            JsonValue::Str(s) => JsonValue::Str(s.clone()),
            JsonValue::Array(items) => JsonValue::Array(items.iter().map(|i| i.clone_value()).collect()),
            JsonValue::Object(m) => JsonValue::Object(JsonMap {
                entries: m.entries.iter().map(|(k, v)| (k.clone(), v.clone_value())).collect(),
            }),
        }
    }
}

#[test]
fn whitelists_give_key_types() {
    let wl = whitelist_of(Table::AccessTable);
    assert_eq!(key_type(&wl, &"service_id".to_string()), Some(FilterValueType::Int));
    assert_eq!(key_type(&wl, &"comment".to_string()), None);
    let wl = whitelist_of(Table::Lighthouse);
    assert_eq!(wl.len(), 5);
    assert_eq!(key_type(&wl, &"platform".to_string()), Some(FilterValueType::Str));
}

#[test]
fn clean_query_filter_strips_unknown_and_mistyped_keys() {
    let q = object(vec![
        ("provider", text("tencent")),
        ("zone", JsonValue::Number(JsonNumber::PosInt(3))),
        ("password", text("x")),
        ("instance_name", text("web-1")),
    ]);
    let r = clean_query_filter("lighthouse", q);
    assert_eq!(r, object(vec![("provider", text("tencent")), ("instance_name", text("web-1"))]));
}

#[test]
fn clean_query_filter_coerces_int_keys() {
    let q = object(vec![
        ("service_id", text("5")),
        ("group_id", text("five")),
        ("other", text("1")),
    ]);
    let r = clean_query_filter("access_table", q);
    assert_eq!(r, object(vec![("service_id", JsonValue::Number(JsonNumber::PosInt(5)))]));
}

#[test]
fn clean_query_filter_hands_back_unknown_tables() {
    let q = object(vec![("anything", JsonValue::Bool(true))]);
    let r = clean_query_filter("no_such", q);
    assert_eq!(r, object(vec![("anything", JsonValue::Bool(true))]));
}

#[test]
fn clean_query_filter_twice_is_once() {
    let q = object(vec![("group_id", text("-7")), ("channel_type", text("mail")), ("x", JsonValue::Null)]);
    let once = clean_query_filter("notification_group_members", q);
    let again = clean_query_filter("notification_group_members", once.clone_map());
    assert_eq!(once, again);
    assert_eq!(once, object(vec![("group_id", JsonValue::Number(JsonNumber::NegInt(-7))), ("channel_type", text("mail"))]));
}

trait CloneMap {
    fn clone_map(&self) -> JsonMap;
}

impl CloneMap for JsonMap {
    fn clone_map(&self) -> JsonMap {
        JsonMap { entries: self.entries.iter().map(|(k, v)| (k.clone(), v.clone_value())).collect() }
    }
}

#[test]
fn clean_cloud_account_filter_keeps_string_provider_and_nick_name() {
    let f = object(vec![
        ("provider", text("aws")),
        ("nick_name", JsonValue::Number(JsonNumber::PosInt(1))),
        ("ak", text("secret")),
        ("nick_name", text("ops")),
    ]);
    let r = clean_cloud_account_filter(f);
    assert_eq!(r, object(vec![("provider", text("aws")), ("nick_name", text("ops"))]));
    assert_eq!(clean_cloud_account_filter(JsonMap::new()), JsonMap::new());
}

#[test]
fn decimal_text_parses_back() {
    for n in [0i64, 1, -1, 42, -42, 1_000_000, i64::MIN, i64::MAX] {
        assert_eq!(parse_i64(&i64_to_decimal(n)), Some(n));
    }
}

#[test]
fn json_map_insert_keeps_names_distinct() {
    let mut m = JsonMap::new();
    m.insert("a".to_string(), JsonValue::Null);
    m.insert("b".to_string(), JsonValue::Null);
    m.insert("a".to_string(), JsonValue::Bool(true));
    let names: Vec<&str> = m.entries.iter().map(|(k, _)| k.as_str()).collect();
    assert_eq!(names, vec!["a", "b"]);
    assert_eq!(m.get("a"), Some(&JsonValue::Bool(true)));
}
