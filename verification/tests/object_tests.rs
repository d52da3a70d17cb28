use juiz_core::connection::{connection_type_from, ConnectionCore, ConnectionType};
use juiz_core::error::JuizError;
use juiz_core::identifier::KEY_TYPE_NAME;
use juiz_core::object::{JuizObjectClass, ObjectCore};
use juiz_core::value::{obj_get_str, Value};

fn sv(t: &str) -> Value {
    Value::String(t.to_string())
}

fn obj_value(members: Vec<(&str, Value)>) -> Value {
    Value::Object(members.into_iter().map(|(k, v)| (k.to_string(), v)).collect())
}

#[test]
fn class_names() {
    assert_eq!(JuizObjectClass::Process("ProcessImpl").as_str(), "Process");
    assert_eq!(JuizObjectClass::Container("x").as_str(), "Container");
    assert_eq!(JuizObjectClass::ContainerProcess("x").as_str(), "ContainerProcess");
    assert_eq!(JuizObjectClass::ProcessFactory("x").as_str(), "ProcessFactory");
    assert_eq!(JuizObjectClass::ContainerFactory("x").as_str(), "ContainerFactory");
    assert_eq!(JuizObjectClass::ContainerProcessFactory("x").as_str(), "ContainerProcessFactory");
    assert_eq!(JuizObjectClass::Broker("x").as_str(), "Broker");
    assert_eq!(JuizObjectClass::BrokerFactory("x").as_str(), "BrokerFactory");
    assert_eq!(JuizObjectClass::BrokerProxy("x").as_str(), "BrokerProxy");
    assert_eq!(JuizObjectClass::BrokerProxyFactory("x").as_str(), "BrokerProxyFactory");
    assert_eq!(JuizObjectClass::System("x").as_str(), "System");
    assert_eq!(JuizObjectClass::Connection("x").as_str(), "unknown");
}

#[test]
fn object_core_create() {
    let c = ObjectCore::create(JuizObjectClass::Process("ProcessImpl"), "increment", "inc0");
    assert_eq!(c.identifier, "core://core/Process/inc0::increment");
    assert_eq!(c.typename, "increment");
    assert_eq!(c.name, "inc0");
    assert_eq!(c.broker_name, "core");
    assert_eq!(c.broker_type_name, "core");
    assert_eq!(c.class_name, JuizObjectClass::Process("ProcessImpl"));
}

#[test]
fn object_core_create_factory() {
    let c = ObjectCore::create_factory(JuizObjectClass::ProcessFactory("ProcessFactoryImpl"), "increment");
    assert_eq!(c.identifier, "core://core/ProcessFactory/increment::increment");
    assert_eq!(c.name, "increment");
}

#[test]
fn object_core_profile() {
    let c = ObjectCore::create(JuizObjectClass::Container("ContainerImpl"), "cam", "cam0");
    let p = c.profile_full().unwrap();
    assert_eq!(obj_get_str(&p, "identifier"), Ok("core://core/Container/cam0::cam"));
    assert_eq!(obj_get_str(&p, "class_name"), Ok("Container"));
    assert_eq!(obj_get_str(&p, KEY_TYPE_NAME), Ok("cam"));
    assert_eq!(obj_get_str(&p, "name"), Ok("cam0"));
}

#[test]
fn connection_type_names() {
    assert_eq!(ConnectionType::Pull.to_string(), "Pull");
    assert_eq!(ConnectionType::Push.to_string(), "Push");
}

#[test]
fn connection_type_parsing() {
    assert_eq!(connection_type_from(Ok("pull")), Ok(ConnectionType::Pull));
    assert_eq!(connection_type_from(Ok("push")), Ok(ConnectionType::Push));
    assert_eq!(
        connection_type_from(Err(JuizError::ValueWithKeyNotFoundError { key: "type".to_string() })),
        Ok(ConnectionType::Pull)
    );
    assert_eq!(
        connection_type_from(Ok("Push")),
        Err(JuizError::ConnectionTypeError { type_string: "Push".to_string() })
    );
}

#[test]
fn connection_core_new() {
    let m = obj_value(vec![("type", sv("push")), ("id", sv("con0"))]);
    let c = ConnectionCore::new("ConnectionImpl", "src".to_string(), "dst".to_string(), "arg1".to_string(), &m).unwrap();
    assert_eq!(c.connection_type(), &ConnectionType::Push);
    assert_eq!(c.source_identifier(), "src");
    assert_eq!(c.destination_identifier(), "dst");
    assert_eq!(c.arg_name(), "arg1");
    assert_eq!(c.object_core().identifier, "core://core/unknown/con0::ConnectionImpl");
    assert_eq!(c.manifest, m);
}

#[test]
fn connection_core_defaults_to_pull() {
    let m = obj_value(vec![("id", sv("con0"))]);
    let c = ConnectionCore::new("ConnectionImpl", "src".to_string(), "dst".to_string(), "a".to_string(), &m).unwrap();
    assert_eq!(c.connection_type, ConnectionType::Pull);
}

#[test]
fn connection_core_errors() {
    let bad_type = obj_value(vec![("type", sv("sideways")), ("id", sv("con0"))]);
    assert_eq!(
        ConnectionCore::new("C", "s".to_string(), "d".to_string(), "a".to_string(), &bad_type).err(),
        Some(JuizError::ConnectionTypeError { type_string: "sideways".to_string() })
    );
    let no_id = obj_value(vec![("type", sv("pull"))]);
    assert_eq!(
        ConnectionCore::new("C", "s".to_string(), "d".to_string(), "a".to_string(), &no_id).err(),
        Some(JuizError::ValueWithKeyNotFoundError { key: "id".to_string() })
    );
}

#[test]
fn connection_profile() {
    let m = obj_value(vec![("id", sv("con0"))]);
    let c = ConnectionCore::new("C", "s".to_string(), "d".to_string(), "arg".to_string(), &m).unwrap();
    let p = c.profile_full().unwrap();
    assert_eq!(obj_get_str(&p, "identifier"), Ok("core://core/unknown/con0::C"));
    assert_eq!(obj_get_str(&p, "connection_type"), Ok("Pull"));
    assert_eq!(obj_get_str(&p, "arg_name"), Ok("arg"));
    assert_eq!(obj_get_str(&p, "destination_identifier"), Ok("d"));
    assert_eq!(obj_get_str(&p, "source_process_identifier"), Ok("s"));
}

#[test]
fn core_identifier_splits_back() {
    let c = ObjectCore::create(JuizObjectClass::ContainerProcess("CPI"), "imwrite", "writer0");
    let st = juiz_core::identifier::digest_identifier(&c.identifier);
    assert_eq!(st.broker_type_name, "core");
    assert_eq!(st.broker_name, "core");
    assert_eq!(st.class_name, "ContainerProcess");
    assert_eq!(st.object_name, "writer0");
    assert_eq!(st.typename, "imwrite");
}

#[test]
fn cores_clone_equal() {
    let c = ObjectCore::create(JuizObjectClass::System("SystemImpl"), "system", "sys0");
    assert_eq!(c.clone(), c);
    let m = obj_value(vec![("id", sv("con1")), ("type", sv("pull"))]);
    let con = ConnectionCore::new("C", "s".to_string(), "d".to_string(), "a".to_string(), &m).unwrap();
    assert_eq!(con.clone(), con);
}

#[test]
fn connection_trait_reads_core() {
    let m = obj_value(vec![("id", sv("con2")), ("type", sv("push"))]);
    let c = ConnectionCore::new("C", "s".to_string(), "d".to_string(), "arg9".to_string(), &m).unwrap();
    assert_eq!(juiz_core::connection::Connection::arg_name(&c), "arg9");
    assert_eq!(juiz_core::connection::Connection::connection_type(&c), &ConnectionType::Push);
    assert_eq!(juiz_core::object::JuizObject::identifier(&c), "core://core/unknown/con2::C");
}
