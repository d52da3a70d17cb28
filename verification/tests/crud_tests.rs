use juiz_core::crud::{
    create_callback_container, delete_callback_container, prepare_request, read_callback_container,
    update_callback_container, CrudArgs, CrudCallback, CrudRequest,
};
use juiz_core::error::JuizError;
use juiz_core::value::Value;

fn args_with(params: Vec<(&str, &str)>, values: Vec<(&str, Value)>) -> CrudArgs {
    CrudArgs {
        params: params.into_iter().map(|(k, v)| (k.to_string(), v.to_string())).collect(),
        values: values.into_iter().map(|(k, v)| (k.to_string(), v)).collect(),
    }
}

#[test]
fn create_table() {
    let t = create_callback_container();
    assert_eq!(t.get("process", "create"), Some(CrudCallback::ProcessCreate));
    assert_eq!(t.get("container", "create"), Some(CrudCallback::ContainerCreate));
    assert_eq!(t.get("container_process", "create"), Some(CrudCallback::ContainerProcessCreate));
    assert_eq!(t.get("execution_context", "create"), Some(CrudCallback::ExecutionContextCreate));
    assert_eq!(t.get("connection", "create"), Some(CrudCallback::ConnectionCreate));
    assert_eq!(t.get("system", "create"), None);
    assert_eq!(t.get("process", "list"), None);
}

#[test]
fn read_table() {
    let t = read_callback_container();
    assert_eq!(t.get("system", "profile_full"), Some(CrudCallback::SystemProfileFull));
    assert_eq!(t.get("system", "filesystem_list"), Some(CrudCallback::SystemFilesystemList));
    assert_eq!(t.get("system", "add_subsystem"), Some(CrudCallback::SystemAddSubsystem));
    assert_eq!(t.get("broker", "list"), Some(CrudCallback::BrokerList));
    assert_eq!(t.get("process", "profile_full"), Some(CrudCallback::ProcessProfileFull));
    assert_eq!(t.get("container_process", "list"), Some(CrudCallback::ContainerProcessList));
    assert_eq!(t.get("connection", "profile_full"), Some(CrudCallback::ConnectionProfileFull));
    assert_eq!(t.get("execution_context", "get_state"), Some(CrudCallback::ExecutionContextGetState));
    assert_eq!(t.get("execution_context", "start"), None);
}

#[test]
fn update_and_delete_tables() {
    let u = update_callback_container();
    assert_eq!(u.get("process", "call"), Some(CrudCallback::ProcessCall));
    assert_eq!(u.get("container_process", "execute"), Some(CrudCallback::ContainerProcessExecute));
    assert_eq!(u.get("execution_context", "stop"), Some(CrudCallback::ExecutionContextStop));
    assert_eq!(u.get("container", "call"), None);
    let d = delete_callback_container();
    assert_eq!(d.get("process", "destroy"), Some(CrudCallback::ProcessDestroy));
    assert_eq!(d.get("container", "destroy"), Some(CrudCallback::ContainerDestroy));
    assert_eq!(d.get("connection", "destroy"), None);
}

#[test]
fn prepare_identifier_calls() {
    let a = args_with(vec![("identifier", "core://core/Process/p::t")], vec![]);
    assert_eq!(
        prepare_request(CrudCallback::ProcessCall, a),
        Ok(CrudRequest::Call(
            CrudCallback::ProcessCall,
            "core://core/Process/p::t".to_string(),
            args_with(vec![("identifier", "core://core/Process/p::t")], vec![])
        ))
    );
    assert_eq!(
        prepare_request(CrudCallback::ContainerDestroy, args_with(vec![], vec![])),
        Err(JuizError::CRUDBrokerCanNotParameterFunctionError { key_name: "identifier".to_string() })
    );
}

#[test]
fn prepare_filesystem_list() {
    assert_eq!(
        prepare_request(CrudCallback::SystemFilesystemList, args_with(vec![], vec![])),
        Ok(CrudRequest::FilesystemList(".".to_string()))
    );
    assert_eq!(
        prepare_request(CrudCallback::SystemFilesystemList, args_with(vec![("path", "/tmp")], vec![])),
        Ok(CrudRequest::FilesystemList("/tmp".to_string()))
    );
}

#[test]
fn prepare_add_subsystem_and_plain() {
    assert_eq!(
        prepare_request(CrudCallback::SystemAddSubsystem, args_with(vec![], vec![("profile", Value::Bool(true))])),
        Ok(CrudRequest::AddSubsystem(Value::Bool(true)))
    );
    assert_eq!(
        prepare_request(CrudCallback::SystemAddSubsystem, args_with(vec![], vec![])),
        Err(JuizError::ValueWithKeyNotFoundError { key: "profile".to_string() })
    );
    assert_eq!(
        prepare_request(CrudCallback::ProcessList, args_with(vec![], vec![])),
        Ok(CrudRequest::Plain(CrudCallback::ProcessList))
    );
    assert_eq!(
        prepare_request(CrudCallback::ProcessCreate, args_with(vec![("identifier", "x")], vec![("name", Value::Null)])),
        Ok(CrudRequest::Create(CrudCallback::ProcessCreate, Value::Object(vec![("name".to_string(), Value::Null)])))
    );
    assert_eq!(
        prepare_request(CrudCallback::ContainerProcessCreate, args_with(vec![("identifier", "c")], vec![("k", Value::Bool(true))])),
        Ok(CrudRequest::CreateIn(
            CrudCallback::ContainerProcessCreate,
            "c".to_string(),
            Value::Object(vec![("k".to_string(), Value::Bool(true))])
        ))
    );
    assert_eq!(
        prepare_request(CrudCallback::ProcessExecute, args_with(vec![("identifier", "p")], vec![])),
        Ok(CrudRequest::Identified(CrudCallback::ProcessExecute, "p".to_string()))
    );
}
