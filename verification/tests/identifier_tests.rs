use juiz_core::error::JuizError;
use juiz_core::identifier::{
    _create_factory_identifier, _create_identifier, connection_identifier_new, create_identifier_from_manifest,
    digest_identifier, identifier_from_manifest, identifier_new, parse_identifier, IdentifierStruct, KEY_TYPE_NAME,
};
use juiz_core::value::Value;

fn s(t: &str) -> Value {
    Value::String(t.to_string())
}

fn manifest_of(members: Vec<(&str, Value)>) -> Value {
    Value::Object(members.into_iter().map(|(k, v)| (k.to_string(), v)).collect())
}

#[test]
fn identifier_new_layout() {
    assert_eq!(
        identifier_new("core", "core", "Process", "increment_function", "inc0"),
        "core://core/Process/inc0::increment_function"
    );
    assert_eq!(
        identifier_new("http", "localhost:3000", "process", "increment_function", "inc0"),
        "http://localhost:3000/process/inc0::increment_function"
    );
}

#[test]
fn connection_identifier_layout() {
    assert_eq!(
        connection_identifier_new("src".to_string(), "dst".to_string(), "arg1"),
        "connnection://src|arg1|dst"
    );
}

#[test]
fn core_identifiers() {
    assert_eq!(_create_identifier("Process", "t", "o"), "core://core/Process/o::t");
    assert_eq!(_create_factory_identifier("ProcessFactory", "t"), "core://core/ProcessFactory/t::t");
}

#[test]
fn manifest_identifier_member_wins() {
    let m = manifest_of(vec![("identifier", s("given")), ("name", s("n")), (KEY_TYPE_NAME, s("t"))]);
    assert_eq!(identifier_from_manifest("core", "core", "Process", &m), Ok("given".to_string()));
}

#[test]
fn manifest_identifier_built_with_defaults() {
    let m = manifest_of(vec![("name", s("inc0")), (KEY_TYPE_NAME, s("increment"))]);
    assert_eq!(
        identifier_from_manifest("core", "core", "Process", &m),
        Ok("core://core/Process/inc0::increment".to_string())
    );
    assert_eq!(create_identifier_from_manifest("Container", &m), Ok("core://core/Container/inc0::increment".to_string()));
}

#[test]
fn manifest_identifier_built_with_brokers() {
    let m = manifest_of(vec![
        ("name", s("inc0")),
        (KEY_TYPE_NAME, s("increment")),
        ("broker_name", s("localhost:8000")),
        ("broker_type_name", s("http")),
        ("identifier", Value::Bool(true)),
    ]);
    assert_eq!(
        identifier_from_manifest("core", "core", "Process", &m),
        Ok("http://localhost:8000/Process/inc0::increment".to_string())
    );
}

#[test]
fn manifest_identifier_errors() {
    let no_name = manifest_of(vec![(KEY_TYPE_NAME, s("t"))]);
    assert_eq!(
        identifier_from_manifest("core", "core", "Process", &no_name),
        Err(JuizError::ValueWithKeyNotFoundError { key: "name".to_string() })
    );
    let bad_name = manifest_of(vec![("name", Value::Null)]);
    assert_eq!(
        identifier_from_manifest("core", "core", "Process", &bad_name),
        Err(JuizError::ValueIsNotStringError { key: "name".to_string() })
    );
    let no_type = manifest_of(vec![("name", s("n"))]);
    assert_eq!(
        identifier_from_manifest("core", "core", "Process", &no_type),
        Err(JuizError::ValueWithKeyNotFoundError { key: KEY_TYPE_NAME.to_string() })
    );
}

#[test]
fn parse_identifier_parts() {
    let id = "core://core/Process/inc0::increment_function".to_string();
    let st = parse_identifier(&id).unwrap();
    assert_eq!(
        st,
        IdentifierStruct {
            identifier: id.clone(),
            class_name: "Process".to_string(),
            typename: "increment_function".to_string(),
            object_name: "inc0".to_string(),
            broker_name: "core".to_string(),
            broker_type_name: "core".to_string(),
        }
    );
    assert_eq!(digest_identifier(&id), st);
}

#[test]
fn parse_identifier_rejects_other_text() {
    for bad in ["", "core://core/Process/inc0", "core:/core/Process/inc0::t", "a://b/c/d::", "a://b/c/\n::t"] {
        let t = bad.to_string();
        assert_eq!(parse_identifier(&t), Err(JuizError::IdentifierParseError { identifier: t.clone() }));
    }
}

#[test]
fn lazy_groups_take_the_shortest_parts() {
    let id = "a://b/c/d/e::f::g".to_string();
    let st = digest_identifier(&id);
    assert_eq!(st.broker_type_name, "a");
    assert_eq!(st.broker_name, "b");
    assert_eq!(st.class_name, "c");
    assert_eq!(st.object_name, "d/e");
    assert_eq!(st.typename, "f::g");
    assert_eq!(st.to_identifier(), id);
}

#[test]
fn split_then_build_gives_back_identifier() {
    for text in ["http://localhost:3000/process/inc0::increment_function", "x://y/z/w::v", "a:b://c//d/e::::f"] {
        let id = text.to_string();
        assert_eq!(digest_identifier(&id).to_identifier(), id);
    }
}

#[test]
fn build_then_split_gives_back_parts() {
    let id = identifier_new("http", "broker0", "ContainerProcess", "imwrite", "writer");
    let st = digest_identifier(&id);
    assert_eq!(st.broker_type_name, "http");
    assert_eq!(st.broker_name, "broker0");
    assert_eq!(st.class_name, "ContainerProcess");
    assert_eq!(st.typename, "imwrite");
    assert_eq!(st.object_name, "writer");
}

#[test]
fn set_class_name_keeps_the_rest() {
    let id = "core://core/Process/inc0::inc".to_string();
    let mut st = digest_identifier(&id);
    let after = st.set_class_name("ContainerProcess");
    assert_eq!(after.class_name, "ContainerProcess");
    assert_eq!(after.identifier, id);
    assert_eq!(st.to_identifier(), "core://core/ContainerProcess/inc0::inc");
}

#[test]
fn lazy_split_of_colons_in_type() {
    let st = digest_identifier(&"core://core/P/a::b::c".to_string());
    assert_eq!(st.object_name, "a");
    assert_eq!(st.typename, "b::c");
}

#[test]
fn build_then_parse_with_separators_inside_parts() {
    let id = identifier_new("http/s", "host:8000", "Cls:x", "t::y/z", "obj/sub");
    let st = digest_identifier(&id);
    assert_eq!(st.broker_type_name, "http/s");
    assert_eq!(st.broker_name, "host:8000");
    assert_eq!(st.class_name, "Cls:x");
    assert_eq!(st.object_name, "obj/sub");
    assert_eq!(st.typename, "t::y/z");
}
