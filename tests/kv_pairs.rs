use httpie::{json_body_fields, parse_kv_pair, HttpieError, KvPair};

fn pair(k: &str, v: &str) -> KvPair {
    KvPair { k: k.to_string(), v: v.to_string() }
}

fn pairs(tokens: &[&str]) -> Vec<KvPair> {
    tokens.iter().map(|t| parse_kv_pair(t).unwrap()).collect()
}

#[test]
fn kv_simple_token() {
    assert_eq!(parse_kv_pair("name=joe").unwrap(), pair("name", "joe"));
}

#[test]
fn kv_second_equals_drops_the_rest() {
    assert_eq!(parse_kv_pair("a=b=c").unwrap(), pair("a", "b"));
}

#[test]
fn kv_without_equals_is_refused() {
    assert_eq!(
        parse_kv_pair("abc"),
        Err(HttpieError::InvalidKvPair("abc".to_string()))
    );
    assert_eq!(parse_kv_pair(""), Err(HttpieError::InvalidKvPair(String::new())));
}

#[test]
fn kv_empty_sides_are_accepted() {
    assert_eq!(parse_kv_pair("=").unwrap(), pair("", ""));
    assert_eq!(parse_kv_pair("key=").unwrap(), pair("key", ""));
    assert_eq!(parse_kv_pair("=value").unwrap(), pair("", "value"));
    assert_eq!(parse_kv_pair("k==v").unwrap(), pair("k", ""));
}

#[test]
fn kv_non_ascii_text() {
    assert_eq!(parse_kv_pair("clé=välue").unwrap(), pair("clé", "välue"));
}

#[test]
fn kv_from_str_matches_parse_kv_pair() {
    assert_eq!(KvPair::from_str("x=1").unwrap(), pair("x", "1"));
}

#[test]
fn error_keeps_the_input() {
    let e = parse_kv_pair("nokey").unwrap_err();
    assert_eq!(e.input(), "nokey");
}

#[test]
fn body_keeps_values_as_strings() {
    let fields = json_body_fields(&pairs(&["name=joe", "age=30"]));
    assert_eq!(fields, vec![pair("name", "joe"), pair("age", "30")]);
}

#[test]
fn body_last_write_wins() {
    let fields = json_body_fields(&pairs(&["k=1", "k=2"]));
    assert_eq!(fields, vec![pair("k", "2")]);
}

#[test]
fn body_overwrite_keeps_other_keys() {
    let fields = json_body_fields(&pairs(&["a=1", "b=2", "a=3", "c=4", "b=5"]));
    assert_eq!(fields, vec![pair("a", "3"), pair("b", "5"), pair("c", "4")]);
}

#[test]
fn body_of_no_tokens_is_empty() {
    assert!(json_body_fields(&Vec::new()).is_empty());
}
