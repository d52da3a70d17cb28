use juiz_core::error::JuizError;
use juiz_core::value::{entries_find, entries_merged, entries_push, obj_get, obj_get_obj, obj_get_str, string_value, Value};

fn text(s: &str) -> Value {
    Value::String(s.to_string())
}

fn object_of(members: Vec<(&str, Value)>) -> Value {
    Value::Object(members.into_iter().map(|(k, v)| (k.to_string(), v)).collect())
}

#[test]
fn obj_get_finds_member() {
    let v = object_of(vec![("a", text("x")), ("b", Value::Bool(true))]);
    assert_eq!(obj_get(&v, "b"), Some(&Value::Bool(true)));
    assert_eq!(obj_get(&v, "c"), None);
}

#[test]
fn obj_get_on_non_object_is_none() {
    assert_eq!(obj_get(&text("a"), "a"), None);
    assert_eq!(obj_get(&Value::Null, "a"), None);
}

#[test]
fn later_member_hides_earlier() {
    let v = object_of(vec![("a", text("first")), ("a", text("second"))]);
    assert_eq!(obj_get_str(&v, "a"), Ok("second"));
    if let Value::Object(entries) = &v {
        assert_eq!(entries_find(entries, "a"), Some(1));
        assert_eq!(entries_find(entries, "z"), None);
    }
}

#[test]
fn obj_get_str_errors() {
    let v = object_of(vec![("n", Value::Number("3".to_string()))]);
    assert_eq!(obj_get_str(&v, "n"), Err(JuizError::ValueIsNotStringError { key: "n".to_string() }));
    assert_eq!(obj_get_str(&v, "m"), Err(JuizError::ValueWithKeyNotFoundError { key: "m".to_string() }));
}

#[test]
fn obj_get_obj_cases() {
    let inner = vec![("k".to_string(), text("v"))];
    let v = object_of(vec![("o", Value::Object(inner.clone())), ("s", text("x"))]);
    assert_eq!(obj_get_obj(&v, "o"), Ok(&inner));
    assert_eq!(obj_get_obj(&v, "s"), Err(JuizError::ValueIsNotObjectError { key: "s".to_string() }));
    assert_eq!(obj_get_obj(&v, "t"), Err(JuizError::ValueWithKeyNotFoundError { key: "t".to_string() }));
}

#[test]
fn read_after_push_gives_pushed_value() {
    let mut entries: Vec<(String, Value)> = vec![("a".to_string(), text("old"))];
    entries_push(&mut entries, "a", text("new"));
    let v = Value::Object(entries);
    assert_eq!(obj_get_str(&v, "a"), Ok("new"));
}

#[test]
fn merged_entries_prefer_the_second() {
    let base = vec![("a".to_string(), text("1")), ("b".to_string(), text("2"))];
    let over = vec![("b".to_string(), text("3")), ("c".to_string(), text("4"))];
    let merged = Value::Object(entries_merged(&base, &over));
    assert_eq!(obj_get_str(&merged, "a"), Ok("1"));
    assert_eq!(obj_get_str(&merged, "b"), Ok("3"));
    assert_eq!(obj_get_str(&merged, "c"), Ok("4"));
}

#[test]
fn duplicate_copies_nested_values() {
    let v = object_of(vec![
        ("arr", Value::Array(vec![Value::Null, Value::Bool(false), Value::Number("1.5".to_string())])),
        ("obj", object_of(vec![("x", text("y"))])),
    ]);
    assert_eq!(v.duplicate(), v);
}

#[test]
fn string_value_holds_text() {
    assert_eq!(string_value("abc"), text("abc"));
}
