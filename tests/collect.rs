use redis_config::{Command, Fetched, RedisSource, SourceError};

const URL: &str = "redis://127.0.0.1:6379";

fn lookup(entries: &[(String, config::Value)], key: &str) -> config::Value {
    let found: Vec<&(String, config::Value)> = entries.iter().filter(|e| e.0 == key).collect();
    assert_eq!(found.len(), 1, "key {key} should occur once");
    found[0].1.clone()
}

fn fields(pairs: &[(&str, &str)]) -> Vec<(String, Vec<u8>)> {
    pairs.iter().map(|(k, v)| (k.to_string(), v.as_bytes().to_vec())).collect()
}

fn string_source(key: &str) -> RedisSource {
    RedisSource::try_new(key.to_string(), URL).unwrap()
}

fn hash_source(key: &str) -> RedisSource {
    string_source(key).set_hash(true)
}

fn words(v: config::Value) -> Vec<String> {
    v.into_array().unwrap().into_iter().map(|w| w.into_string().unwrap()).collect()
}

#[test]
fn single_value_object_is_read_back() {
    let source = string_source("app-settings");
    let data = br#"{"ttl": 1500, "path": "/x"}"#.to_vec();
    let entries = source.collect(Ok(Fetched::Value(Some(data)))).unwrap();
    assert_eq!(entries.len(), 2);
    assert_eq!(lookup(&entries, "ttl").into_int().unwrap(), 1500);
    assert_eq!(lookup(&entries, "path").into_string().unwrap(), "/x");
}

#[test]
fn field_map_is_read_back() {
    let source = hash_source("K");
    let data = fields(&[("invite_ttl", "250"), ("sender_email", "\"a@b.com\"")]);
    let entries = source.collect(Ok(Fetched::Fields(Some(data)))).unwrap();
    assert_eq!(entries.len(), 2);
    assert_eq!(lookup(&entries, "invite_ttl").into_int().unwrap(), 250);
    assert_eq!(lookup(&entries, "sender_email").into_string().unwrap(), "a@b.com");
}

#[test]
fn absent_optional_single_value_is_empty() {
    let source = string_source("K").required(false);
    let entries = source.collect(Ok(Fetched::Value(None))).unwrap();
    assert!(entries.is_empty());
}

#[test]
fn absent_optional_field_map_is_empty() {
    let source = hash_source("K").required(false);
    let entries = source.collect(Ok(Fetched::Fields(None))).unwrap();
    assert!(entries.is_empty());
}

#[test]
fn absent_required_single_value_fails() {
    let source = string_source("K");
    let r = source.collect(Ok(Fetched::Value(None)));
    assert!(matches!(r, Err(SourceError::RedisKeyDoesNotExist)));
}

#[test]
fn absent_required_field_map_fails() {
    let source = hash_source("K").required(true);
    let r = source.collect(Ok(Fetched::Fields(None)));
    assert!(matches!(r, Err(SourceError::RedisKeyDoesNotExist)));
}

#[test]
fn one_bad_field_fails_the_whole_map() {
    let source = hash_source("K");
    let data = fields(&[("invite_ttl", "250"), ("sender_email", "not json"), ("x", "1")]);
    let r = source.collect(Ok(Fetched::Fields(Some(data))));
    assert!(matches!(r, Err(SourceError::SerdeFieldError(name, _)) if name == "sender_email"));
}

#[test]
fn one_bad_field_fails_even_when_optional() {
    let source = hash_source("K").required(false);
    let data = fields(&[("a", "{")]);
    let r = source.collect_from_hash(Some(data));
    assert!(matches!(r, Err(SourceError::SerdeFieldError(name, _)) if name == "a"));
}

#[test]
fn invalid_json_blob_fails() {
    let source = string_source("K");
    let r = source.collect_from_key(Some(b"{\"ttl\": ".to_vec()));
    assert!(matches!(r, Err(SourceError::SerdeError(_))));
}

#[test]
fn non_object_blob_fails() {
    let source = string_source("K");
    let r = source.collect_from_key(Some(b"[1, 2, 3]".to_vec()));
    assert!(matches!(r, Err(SourceError::SerdeError(_))));
    let r = source.collect_from_key(Some(b"42".to_vec()));
    assert!(matches!(r, Err(SourceError::SerdeError(_))));
}

#[test]
fn empty_object_blob_is_empty() {
    let source = string_source("K");
    let entries = source.collect_from_key(Some(b"{}".to_vec())).unwrap();
    assert!(entries.is_empty());
}

#[test]
fn empty_field_answer_fails_a_required_source() {
    let source = hash_source("K");
    let r = source.collect(Ok(Fetched::Fields(Some(Vec::new()))));
    assert!(matches!(r, Err(SourceError::RedisKeyDoesNotExist)));
}

#[test]
fn empty_field_answer_is_empty_for_an_optional_source() {
    let source = hash_source("K").required(false);
    let entries = source.collect(Ok(Fetched::Fields(Some(Vec::new())))).unwrap();
    assert!(entries.is_empty());
}

#[test]
fn first_bad_field_is_named() {
    let source = hash_source("K");
    let data = fields(&[("ok", "1"), ("bad1", "[1,"), ("bad2", "nope")]);
    let r = source.collect_from_hash(Some(data));
    assert!(matches!(r, Err(SourceError::SerdeFieldError(name, _)) if name == "bad1"));
}

#[test]
fn field_order_does_not_change_the_keys() {
    let source = hash_source("K");
    let a = source.collect_from_hash(Some(fields(&[("x", "1"), ("y", "\"s\"")]))).unwrap();
    let b = source.collect_from_hash(Some(fields(&[("y", "\"s\""), ("x", "1")]))).unwrap();
    assert_eq!(a.len(), 2);
    assert_eq!(b.len(), 2);
    assert_eq!(lookup(&a, "x"), lookup(&b, "x"));
    assert_eq!(lookup(&a, "y"), lookup(&b, "y"));
}

#[test]
fn absent_optional_repeats_the_same_result() {
    let source = string_source("K").required(false);
    let first = source.collect(Ok(Fetched::Value(None))).unwrap();
    let second = source.collect(Ok(Fetched::Value(None))).unwrap();
    assert!(first.is_empty());
    assert_eq!(first, second);
}

#[test]
fn repeated_field_keeps_last_value() {
    let source = hash_source("K");
    let data = fields(&[("a", "1"), ("b", "true"), ("a", "2")]);
    let entries = source.collect_from_hash(Some(data)).unwrap();
    assert_eq!(entries.len(), 2);
    assert_eq!(lookup(&entries, "a").into_int().unwrap(), 2);
    assert!(lookup(&entries, "b").into_bool().unwrap());
}

#[test]
fn store_failure_is_redis_error() {
    let source = string_source("K");
    let err = redis::RedisError::from((redis::ErrorKind::IoError, "connection lost"));
    let r = source.collect(Err(err));
    assert!(matches!(r, Err(SourceError::RedisError(_))));
}

#[test]
fn unparsable_address_fails_at_construction() {
    let r = RedisSource::try_new("K".to_string(), "not a redis address");
    assert!(matches!(r, Err(SourceError::RedisError(_))));
    let r = RedisSource::try_new("K".to_string(), "");
    assert!(matches!(r, Err(SourceError::RedisError(_))));
}

#[test]
fn parsable_address_builds_a_required_string_source() {
    let source = string_source("app-settings");
    assert!(matches!(source.command(), Command::Get(k) if k == "app-settings"));
    let r = source.collect(Ok(Fetched::Value(None)));
    assert!(matches!(r, Err(SourceError::RedisKeyDoesNotExist)));
}

#[test]
fn hash_source_issues_hgetall() {
    let source = hash_source("cfg");
    assert!(matches!(source.command(), Command::HGetAll(k) if k == "cfg"));
    let source = source.set_hash(false);
    assert!(matches!(source.command(), Command::Get(k) if k == "cfg"));
}

#[test]
fn nested_values_are_kept() {
    let source = string_source("K");
    let data = br#"{"server": {"ttl": 5, "tags": ["a", "b"]}, "on": null}"#.to_vec();
    let entries = source.collect_from_key(Some(data)).unwrap();
    assert_eq!(entries.len(), 2);
    let server = lookup(&entries, "server").into_table().unwrap();
    assert_eq!(server["ttl"].clone().into_int().unwrap(), 5);
    assert_eq!(words(server["tags"].clone()), vec!["a", "b"]);
}
