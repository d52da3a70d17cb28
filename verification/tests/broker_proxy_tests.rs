use juiz_core::broker_proxy::{call_callback, execute_request, BrokerProxy};
use juiz_core::crud::{CrudArgs, CrudCallback, CrudRequest};
use juiz_core::error::JuizError;
use juiz_core::value::Value;

/// A broker that records each operation asked of it and answers with its name.
struct RecordingBroker {
    log: Vec<String>,
}

fn answer(name: &str, detail: &str) -> Result<Value, JuizError> {
    Ok(Value::String(format!("{name}({detail})")))
}

impl BrokerProxy for RecordingBroker {
    fn system_profile_full(&self) -> Result<Value, JuizError> {
        answer("system_profile_full", "")
    }
    fn broker_list(&self) -> Result<Value, JuizError> {
        answer("broker_list", "")
    }
    fn process_list(&self) -> Result<Value, JuizError> {
        answer("process_list", "")
    }
    fn container_list(&self) -> Result<Value, JuizError> {
        answer("container_list", "")
    }
    fn container_process_list(&self) -> Result<Value, JuizError> {
        answer("container_process_list", "")
    }
    fn connection_list(&self) -> Result<Value, JuizError> {
        answer("connection_list", "")
    }
    fn ec_list(&self) -> Result<Value, JuizError> {
        answer("ec_list", "")
    }
    fn broker_profile_full(&self, id: &String) -> Result<Value, JuizError> {
        answer("broker_profile_full", id)
    }
    fn process_profile_full(&self, id: &String) -> Result<Value, JuizError> {
        answer("process_profile_full", id)
    }
    fn process_execute(&self, id: &String) -> Result<Value, JuizError> {
        answer("process_execute", id)
    }
    fn container_profile_full(&self, id: &String) -> Result<Value, JuizError> {
        answer("container_profile_full", id)
    }
    fn container_process_profile_full(&self, id: &String) -> Result<Value, JuizError> {
        answer("container_process_profile_full", id)
    }
    fn container_process_execute(&self, id: &String) -> Result<Value, JuizError> {
        answer("container_process_execute", id)
    }
    fn connection_profile_full(&self, id: &String) -> Result<Value, JuizError> {
        answer("connection_profile_full", id)
    }
    fn ec_profile_full(&self, id: &String) -> Result<Value, JuizError> {
        answer("ec_profile_full", id)
    }
    fn ec_get_state(&self, id: &String) -> Result<Value, JuizError> {
        answer("ec_get_state", id)
    }
    fn process_destroy(&mut self, id: &String) -> Result<Value, JuizError> {
        self.log.push("process_destroy".to_string());
        answer("process_destroy", id)
    }
    fn container_destroy(&mut self, id: &String) -> Result<Value, JuizError> {
        self.log.push("container_destroy".to_string());
        answer("container_destroy", id)
    }
    fn container_process_destroy(&mut self, id: &String) -> Result<Value, JuizError> {
        self.log.push("container_process_destroy".to_string());
        answer("container_process_destroy", id)
    }
    fn ec_start(&mut self, id: &String) -> Result<Value, JuizError> {
        self.log.push("ec_start".to_string());
        answer("ec_start", id)
    }
    fn ec_stop(&mut self, id: &String) -> Result<Value, JuizError> {
        self.log.push("ec_stop".to_string());
        answer("ec_stop", id)
    }
    fn process_create(&mut self, manifest: &Value) -> Result<Value, JuizError> {
        self.log.push("process_create".to_string());
        answer("process_create", &format!("{manifest:?}"))
    }
    fn container_create(&mut self, manifest: &Value) -> Result<Value, JuizError> {
        self.log.push("container_create".to_string());
        answer("container_create", &format!("{manifest:?}"))
    }
    fn ec_create(&mut self, manifest: &Value) -> Result<Value, JuizError> {
        self.log.push("ec_create".to_string());
        answer("ec_create", &format!("{manifest:?}"))
    }
    fn system_filesystem_list(&self, path: String) -> Result<Value, JuizError> {
        answer("system_filesystem_list", &path)
    }
    fn system_add_subsystem(&mut self, profile: Value) -> Result<Value, JuizError> {
        self.log.push("system_add_subsystem".to_string());
        answer("system_add_subsystem", &format!("{profile:?}"))
    }
    fn process_call(&self, id: &String, args: CrudArgs) -> Result<Value, JuizError> {
        answer("process_call", &format!("{id} {}", args.values.len()))
    }
    fn container_process_call(&self, id: &String, args: CrudArgs) -> Result<Value, JuizError> {
        answer("container_process_call", &format!("{id} {}", args.values.len()))
    }
    fn container_process_create(&mut self, container_id: &String, manifest: &Value) -> Result<Value, JuizError> {
        self.log.push("container_process_create".to_string());
        answer("container_process_create", &format!("{container_id} {manifest:?}"))
    }
    fn connection_create(&mut self, manifest: Value) -> Result<Value, JuizError> {
        self.log.push("connection_create".to_string());
        answer("connection_create", &format!("{manifest:?}"))
    }
}

fn with_id(id: &str) -> CrudArgs {
    CrudArgs { params: vec![("identifier".to_string(), id.to_string())], values: vec![] }
}

fn empty_args() -> CrudArgs {
    CrudArgs { params: vec![], values: vec![] }
}

fn text(s: &str) -> Value {
    Value::String(s.to_string())
}

#[test]
fn call_reaches_process_call_with_whole_arguments() {
    let mut b = RecordingBroker { log: vec![] };
    let args = CrudArgs {
        params: vec![("identifier".to_string(), "p0".to_string())],
        values: vec![("arg1".to_string(), text("x")), ("arg2".to_string(), text("y"))],
    };
    assert_eq!(call_callback(&mut b, CrudCallback::ProcessCall, args), Ok(text("process_call(p0 2)")));
    assert_eq!(
        call_callback(&mut b, CrudCallback::ContainerProcessCall, with_id("cp0")),
        Ok(text("container_process_call(cp0 0)"))
    );
}

#[test]
fn missing_identifier_asks_nothing_of_the_broker() {
    let mut b = RecordingBroker { log: vec![] };
    assert_eq!(
        call_callback(&mut b, CrudCallback::ProcessDestroy, empty_args()),
        Err(JuizError::CRUDBrokerCanNotParameterFunctionError { key_name: "identifier".to_string() })
    );
    assert!(b.log.is_empty());
    assert_eq!(call_callback(&mut b, CrudCallback::ProcessDestroy, with_id("p1")), Ok(text("process_destroy(p1)")));
    assert_eq!(b.log, vec!["process_destroy".to_string()]);
}

#[test]
fn each_operation_reaches_its_broker_function() {
    let mut b = RecordingBroker { log: vec![] };
    assert_eq!(call_callback(&mut b, CrudCallback::ProcessList, empty_args()), Ok(text("process_list()")));
    assert_eq!(call_callback(&mut b, CrudCallback::ExecutionContextList, empty_args()), Ok(text("ec_list()")));
    assert_eq!(call_callback(&mut b, CrudCallback::SystemProfileFull, empty_args()), Ok(text("system_profile_full()")));
    assert_eq!(call_callback(&mut b, CrudCallback::ExecutionContextStart, with_id("ec0")), Ok(text("ec_start(ec0)")));
    assert_eq!(call_callback(&mut b, CrudCallback::ExecutionContextGetState, with_id("ec0")), Ok(text("ec_get_state(ec0)")));
    assert_eq!(call_callback(&mut b, CrudCallback::ContainerDestroy, with_id("c0")), Ok(text("container_destroy(c0)")));
    assert_eq!(
        call_callback(&mut b, CrudCallback::SystemFilesystemList, empty_args()),
        Ok(text("system_filesystem_list(.)"))
    );
}

#[test]
fn creations_hand_the_arguments_values() {
    let mut b = RecordingBroker { log: vec![] };
    let args = CrudArgs { params: vec![], values: vec![("name".to_string(), text("n"))] };
    let expected = Value::Object(vec![("name".to_string(), text("n"))]);
    assert_eq!(
        call_callback(&mut b, CrudCallback::ProcessCreate, args),
        Ok(Value::String(format!("process_create({expected:?})")))
    );
    let args = CrudArgs {
        params: vec![("identifier".to_string(), "c0".to_string())],
        values: vec![("name".to_string(), text("n"))],
    };
    assert_eq!(
        call_callback(&mut b, CrudCallback::ContainerProcessCreate, args),
        Ok(Value::String(format!("container_process_create(c0 {expected:?})")))
    );
    assert_eq!(b.log, vec!["process_create".to_string(), "container_process_create".to_string()]);
}

#[test]
fn add_subsystem_takes_the_profile() {
    let mut b = RecordingBroker { log: vec![] };
    assert_eq!(
        call_callback(&mut b, CrudCallback::SystemAddSubsystem, empty_args()),
        Err(JuizError::ValueWithKeyNotFoundError { key: "profile".to_string() })
    );
    let args = CrudArgs { params: vec![], values: vec![("profile".to_string(), text("sub"))] };
    assert_eq!(
        call_callback(&mut b, CrudCallback::SystemAddSubsystem, args),
        Ok(Value::String(format!("system_add_subsystem({:?})", text("sub"))))
    );
}

#[test]
fn execute_request_dispatches_a_prepared_request() {
    let mut b = RecordingBroker { log: vec![] };
    assert_eq!(
        execute_request(&mut b, CrudRequest::Identified(CrudCallback::ConnectionProfileFull, "k0".to_string())),
        Ok(text("connection_profile_full(k0)"))
    );
    assert_eq!(
        execute_request(&mut b, CrudRequest::Create(CrudCallback::ConnectionCreate, Value::Null)),
        Ok(Value::String(format!("connection_create({:?})", Value::Null)))
    );
}
