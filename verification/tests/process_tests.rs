use juiz_core::connection::ConnectionType;
use juiz_core::core_broker::CoreBroker;
use juiz_core::error::JuizError;
use juiz_core::identifier::KEY_TYPE_NAME;
use juiz_core::object::{JuizObject, JuizObjectClass};
use juiz_core::process::{Inlet, Outlet, ProcessImpl};
use juiz_core::value::{obj_get_str, Value};

fn pv(t: &str) -> Value {
    Value::String(t.to_string())
}

fn num(n: i64) -> Value {
    Value::Number(n.to_string())
}

fn process_manifest() -> Value {
    let arg = |d: Value| Value::Object(vec![("type".to_string(), pv("int")), ("default".to_string(), d)]);
    Value::Object(vec![
        (KEY_TYPE_NAME.to_string(), pv("increment_process")),
        ("name".to_string(), pv("increment0")),
        ("arguments".to_string(), Value::Object(vec![("arg1".to_string(), arg(num(1))), ("arg2".to_string(), arg(num(2)))])),
    ])
}

fn echo_args(args: Vec<(String, Value)>) -> Result<Value, JuizError> {
    Ok(Value::Object(args))
}

#[test]
fn process_new_builds_inlets() {
    let p = ProcessImpl::new(process_manifest(), echo_args).unwrap();
    assert_eq!(p.identifier, "core://core/Process/increment0::increment_process");
    assert_eq!(p.core.identifier, "core://core/Process/increment0::increment_process");
    assert_eq!(p.inlets.len(), 2);
    assert_eq!(p.inlet("arg1").unwrap().default_value, num(1));
    assert_eq!(p.inlet("arg2").unwrap().default_value, num(2));
    assert_eq!(p.outlet, Outlet { memo: None, destination_connections: vec![] });
    assert!(p.inlets.iter().all(|i| i.source_connections.is_empty()));
    assert_eq!(p.manifest(), &process_manifest());
    assert_eq!(p.typename(), "increment_process");
    assert_eq!(p.name(), "increment0");
}

#[test]
fn process_new_with_class() {
    let p = ProcessImpl::new_with_class(JuizObjectClass::ContainerProcess("CPI"), process_manifest(), echo_args).unwrap();
    assert_eq!(p.core.identifier, "core://core/ContainerProcess/increment0::increment_process");
    assert_eq!(p.identifier, "core://core/Process/increment0::increment_process");
    let q = ProcessImpl::clousure_new_with_class_name(JuizObjectClass::Process("P"), process_manifest(), echo_args).unwrap();
    assert_eq!(q.identifier, p.identifier);
    let r = ProcessImpl::_clousure_new(process_manifest(), echo_args).unwrap();
    assert_eq!(r.core.identifier, "core://core/Process/increment0::increment_process");
}

#[test]
fn process_new_errors() {
    let missing_type = Value::Object(vec![("name".to_string(), pv("n"))]);
    assert_eq!(
        ProcessImpl::new(missing_type, echo_args).err(),
        Some(JuizError::ValueWithKeyNotFoundError { key: KEY_TYPE_NAME.to_string() })
    );
    let missing_name = Value::Object(vec![(KEY_TYPE_NAME.to_string(), pv("t"))]);
    assert_eq!(
        ProcessImpl::new(missing_name, echo_args).err(),
        Some(JuizError::ValueWithKeyNotFoundError { key: "name".to_string() })
    );
    let no_args = Value::Object(vec![(KEY_TYPE_NAME.to_string(), pv("t")), ("name".to_string(), pv("n"))]);
    assert_eq!(
        ProcessImpl::new(no_args, echo_args).err(),
        Some(JuizError::ValueWithKeyNotFoundError { key: "arguments".to_string() })
    );
    let bad_args = Value::Object(vec![
        (KEY_TYPE_NAME.to_string(), pv("t")),
        ("name".to_string(), pv("n")),
        ("arguments".to_string(), num(3)),
    ]);
    assert_eq!(
        ProcessImpl::new(bad_args, echo_args).err(),
        Some(JuizError::ValueIsNotObjectError { key: "arguments".to_string() })
    );
}

#[test]
fn repeated_argument_keeps_last_declaration() {
    let arg = |d: i64| Value::Object(vec![("default".to_string(), num(d))]);
    let m = Value::Object(vec![
        (KEY_TYPE_NAME.to_string(), pv("t")),
        ("name".to_string(), pv("n")),
        ("arguments".to_string(), Value::Object(vec![("a".to_string(), arg(1)), ("a".to_string(), arg(5))])),
    ]);
    let p = ProcessImpl::new(m, echo_args).unwrap();
    assert_eq!(p.inlets.len(), 1);
    assert_eq!(p.inlet("a").unwrap().default_value, num(5));
}

#[test]
fn missing_inlet_error() {
    let mut p = ProcessImpl::new(process_manifest(), echo_args).unwrap();
    assert_eq!(p.inlet("zzz").err(), Some(JuizError::CanNotFindError { target: "Process::Inlet(zzz)".to_string() }));
    assert_eq!(
        p.inlet_mut("zzz").err(),
        Some(JuizError::CanNotFindError { target: "Process::Inlet(zzz)".to_string() })
    );
    assert_eq!(
        p.bind("zzz", num(3)),
        Err(JuizError::CanNotFindError { target: "Process::Inlet(zzz)".to_string() })
    );
}

#[test]
fn invoke_computes_then_memoizes() {
    let mut p = ProcessImpl::new(process_manifest(), echo_args).unwrap();
    assert_eq!(p.is_updated(), Ok(true));
    let out = p.invoke().unwrap();
    assert_eq!(obj_get_str(&out, "arg1"), Err(JuizError::ValueIsNotStringError { key: "arg1".to_string() }));
    assert_eq!(out, Value::Object(vec![("arg1".to_string(), num(1)), ("arg2".to_string(), num(2))]));
    assert_eq!(p.get_output(), Some(out.duplicate()));
    assert_eq!(p.is_updated(), Ok(false));
    assert_eq!(p.invoke(), Ok(out));
}

#[test]
fn bind_marks_updated_and_is_used() {
    let mut p = ProcessImpl::new(process_manifest(), echo_args).unwrap();
    p.invoke().unwrap();
    assert_eq!(p.bind("arg2", num(7)), Ok(num(7)));
    assert_eq!(p.is_updated(), Ok(true));
    assert_eq!(p.is_updated_exclude("arg2"), Ok(false));
    let out = p.invoke().unwrap();
    assert_eq!(out, Value::Object(vec![("arg1".to_string(), num(1)), ("arg2".to_string(), num(7))]));
}

#[test]
fn invoke_exclude_hands_given_value() {
    let mut p = ProcessImpl::new(process_manifest(), echo_args).unwrap();
    let out = p.invoke_exclude("arg1", num(10)).unwrap();
    assert_eq!(out, Value::Object(vec![("arg1".to_string(), num(10)), ("arg2".to_string(), num(2))]));
    assert_eq!(p.invoke_exclude("arg1", num(11)), Ok(out));
}

#[test]
fn failing_function_leaves_no_output() {
    fn fail(_args: Vec<(String, Value)>) -> Result<Value, JuizError> {
        Err(JuizError::CanNotFindError { target: "x".to_string() })
    }
    let mut p = ProcessImpl::new(process_manifest(), fail).unwrap();
    assert_eq!(p.invoke(), Err(JuizError::CanNotFindError { target: "x".to_string() }));
    assert_eq!(p.get_output(), None);
}

#[test]
fn inlet_model() {
    let mut i = Inlet::new("a", num(1));
    assert_eq!(i.name(), "a");
    assert_eq!(i.collect_value(), num(1));
    assert!(!i.is_updated());
    assert_eq!(i.bind(num(2)), num(2));
    assert_eq!(i.collect_value(), num(2));
    assert!(i.is_updated());
    let mut o = Outlet::new();
    assert_eq!(o.set_value(num(4)), num(4));
    assert_eq!(o.memo, Some(num(4)));
}

#[test]
fn process_profile_has_core_and_arguments() {
    let p = ProcessImpl::new(process_manifest(), echo_args).unwrap();
    let prof = JuizObject::profile_full(&p).unwrap();
    assert_eq!(obj_get_str(&prof, "identifier"), Ok("core://core/Process/increment0::increment_process"));
    assert_eq!(obj_get_str(&prof, "class_name"), Ok("Process"));
    assert_eq!(obj_get_str(&prof, KEY_TYPE_NAME), Ok("increment_process"));
    assert_eq!(obj_get_str(&prof, "name"), Ok("increment0"));
    assert_eq!(
        juiz_core::value::obj_get(&prof, "arguments"),
        juiz_core::value::obj_get(&process_manifest(), "arguments")
    );
    let inlet_profile = |name: &str, d: i64| {
        Value::Object(vec![("name".to_string(), pv(name)), ("default".to_string(), num(d))])
    };
    assert_eq!(
        juiz_core::value::obj_get(&prof, "inlets"),
        Some(&Value::Array(vec![inlet_profile("arg1", 1), inlet_profile("arg2", 2)]))
    );
    assert_eq!(
        juiz_core::value::obj_get(&prof, "outlet"),
        Some(&Value::Object(vec![("memo".to_string(), Value::Null)]))
    );
    assert_eq!(p.identifier(), &p.core.identifier);
    assert_eq!(p.broker_type(), "core");
    assert_eq!(p.broker_name(), "core");
    assert_eq!(p.class_name(), &JuizObjectClass::Process("ProcessImpl"));
}

#[test]
fn argument_manifest_reads_arguments() {
    let m = process_manifest();
    let args = juiz_core::process::argument_manifest(&m).unwrap();
    assert_eq!(args.len(), 2);
    assert_eq!(args[0].0, "arg1");
    assert_eq!(
        juiz_core::process::argument_manifest(&Value::Null),
        Err(JuizError::ValueWithKeyNotFoundError { key: "arguments".to_string() })
    );
}

fn other_manifest() -> Value {
    Value::Object(vec![
        (KEY_TYPE_NAME.to_string(), pv("other_process")),
        ("name".to_string(), pv("other0")),
        ("arguments".to_string(), Value::Object(vec![])),
    ])
}

fn constant_seven(_args: Vec<(String, Value)>) -> Result<Value, JuizError> {
    Ok(num(7))
}

#[test]
fn core_broker_starts_empty() {
    let b = CoreBroker::<fn(Vec<(String, Value)>) -> Result<Value, JuizError>>::new(pv("m")).unwrap();
    assert_eq!(b.manifest, pv("m"));
    assert_eq!(b.process_rack.len(), 0);
    assert!(!b.is_in_charge_for_process(&"core://core/Process/increment0::increment_process".to_string()));
}

#[test]
fn core_broker_finds_and_calls_process() {
    let mut b = CoreBroker::<fn(Vec<(String, Value)>) -> Result<Value, JuizError>>::new(Value::Null).unwrap();
    let f: fn(Vec<(String, Value)>) -> Result<Value, JuizError> = echo_args;
    let g: fn(Vec<(String, Value)>) -> Result<Value, JuizError> = constant_seven;
    assert_eq!(b.push_process(ProcessImpl::new(process_manifest(), f).unwrap()), Ok(()));
    assert_eq!(b.push_process(ProcessImpl::new(other_manifest(), g).unwrap()), Ok(()));
    assert_eq!(b.process_rack.len(), 2);
    let first = "core://core/Process/increment0::increment_process".to_string();
    let second = "core://core/Process/other0::other_process".to_string();
    assert!(b.is_in_charge_for_process(&first));
    assert!(b.is_in_charge_for_process(&second));
    let args = vec![("arg1".to_string(), num(5))];
    assert_eq!(b.call_process(&first, args.clone()), Ok(Value::Object(args.clone())));
    assert_eq!(b.call_process(&second, args), Ok(num(7)));
}

#[test]
fn core_broker_unknown_process_is_an_error() {
    let mut b = CoreBroker::<fn(Vec<(String, Value)>) -> Result<Value, JuizError>>::new(Value::Null).unwrap();
    let f: fn(Vec<(String, Value)>) -> Result<Value, JuizError> = echo_args;
    b.push_process(ProcessImpl::new(process_manifest(), f).unwrap()).unwrap();
    let missing = "core://core/Process/nothing::none".to_string();
    assert!(!b.is_in_charge_for_process(&missing));
    assert_eq!(b.call_process(&missing, vec![]), Err(JuizError::ProcessCanNotFoundError));
}

fn connection_manifest(id: &str, typ: &str) -> Value {
    Value::Object(vec![("id".to_string(), pv(id)), ("type".to_string(), pv(typ))])
}

#[test]
fn notify_connected_from_adds_source_connection() {
    let mut p = ProcessImpl::new(process_manifest(), echo_args).unwrap();
    let cm = connection_manifest("con0", "push");
    assert_eq!(p.notify_connected_from("core://core/Process/src0::src".to_string(), "arg2", cm.clone()), Ok(cm));
    let inlet = p.inlet("arg2").unwrap();
    assert_eq!(inlet.source_connections.len(), 1);
    let c = &inlet.source_connections[0];
    assert_eq!(c.source_process_identifier, "core://core/Process/src0::src");
    assert_eq!(c.destination_process_identifier, "core://core/Process/increment0::increment_process");
    assert_eq!(c.arg_name, "arg2");
    assert_eq!(c.connection_type, ConnectionType::Push);
    assert_eq!(c.core.name, "con0");
    assert_eq!(c.core.typename, "SourceConnectionImpl");
    assert!(p.inlet("arg1").unwrap().source_connections.is_empty());
    let sources = p.source_connections().unwrap();
    assert_eq!(sources.len(), 1);
    assert_eq!(sources[0].arg_name, "arg2");
}

#[test]
fn sources_are_listed_in_argument_order() {
    let mut p = ProcessImpl::new(process_manifest(), echo_args).unwrap();
    p.notify_connected_from("s2".to_string(), "arg2", connection_manifest("c2", "pull")).unwrap();
    p.notify_connected_from("s1".to_string(), "arg1", connection_manifest("c1", "pull")).unwrap();
    p.notify_connected_from("s3".to_string(), "arg2", connection_manifest("c3", "pull")).unwrap();
    let names: Vec<String> = p.source_connections().unwrap().iter().map(|c| c.core.name.clone()).collect();
    assert_eq!(names, vec!["c1".to_string(), "c2".to_string(), "c3".to_string()]);
}

#[test]
fn notify_connected_from_errors_leave_process_unchanged() {
    let mut p = ProcessImpl::new(process_manifest(), echo_args).unwrap();
    assert_eq!(
        p.notify_connected_from("s".to_string(), "nope", connection_manifest("c", "push")),
        Err(JuizError::CanNotFindError { target: "Process::Inlet(nope)".to_string() })
    );
    assert_eq!(
        p.notify_connected_from("s".to_string(), "arg1", connection_manifest("c", "sideways")),
        Err(JuizError::ConnectionTypeError { type_string: "sideways".to_string() })
    );
    let no_id = Value::Object(vec![("type".to_string(), pv("push"))]);
    assert_eq!(
        p.notify_connected_from("s".to_string(), "arg1", no_id),
        Err(JuizError::ValueWithKeyNotFoundError { key: "id".to_string() })
    );
    assert!(p.source_connections().unwrap().is_empty());
}

#[test]
fn try_connect_to_adds_destination_connection() {
    let mut p = ProcessImpl::new(process_manifest(), echo_args).unwrap();
    let cm = Value::Object(vec![("id".to_string(), pv("out0"))]);
    assert_eq!(p.try_connect_to("core://core/Process/dst0::dst".to_string(), "x", cm.clone()), Ok(cm));
    let dests = p.destination_connections().unwrap();
    assert_eq!(dests.len(), 1);
    assert_eq!(dests[0].source_process_identifier, "core://core/Process/increment0::increment_process");
    assert_eq!(dests[0].destination_process_identifier, "core://core/Process/dst0::dst");
    assert_eq!(dests[0].arg_name, "x");
    assert_eq!(dests[0].connection_type, ConnectionType::Pull);
    assert_eq!(dests[0].core.typename, "DestinationConnectionImpl");
    assert_eq!(
        p.try_connect_to("d".to_string(), "x", connection_manifest("c", "sideways")),
        Err(JuizError::ConnectionTypeError { type_string: "sideways".to_string() })
    );
    assert_eq!(p.destination_connections().unwrap().len(), 1);
}
