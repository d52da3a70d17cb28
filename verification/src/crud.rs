use vstd::prelude::*;
use crate::error::JuizError;
use crate::pairs::{lemma_pairs_view_push, pairs_find, pairs_view};
use crate::strings::string_of;
use crate::value::{Value, json_get};

verus! {

/// An operation that a CRUD broker offers, named by its class and function.
#[derive(PartialEq, Eq, Structural, Clone, Copy, Debug)]
pub enum CrudCallback {
    ProcessCreate,
    ContainerCreate,
    ContainerProcessCreate,
    ExecutionContextCreate,
    ConnectionCreate,
    SystemProfileFull,
    SystemFilesystemList,
    SystemAddSubsystem,
    BrokerProfileFull,
    BrokerList,
    ProcessProfileFull,
    ProcessList,
    ContainerProfileFull,
    ContainerList,
    ContainerProcessProfileFull,
    ContainerProcessList,
    ConnectionProfileFull,
    ConnectionList,
    ExecutionContextProfileFull,
    ExecutionContextList,
    ExecutionContextGetState,
    ProcessCall,
    ProcessExecute,
    ContainerProcessCall,
    ContainerProcessExecute,
    ExecutionContextStart,
    ExecutionContextStop,
    ProcessDestroy,
    ContainerProcessDestroy,
    ContainerDestroy,
}

/// The operations of one class, by function name.
pub struct CallbackContainer {
    pub entries: Vec<(String, CrudCallback)>,
}

impl View for CallbackContainer {
    type V = Map<Seq<char>, CrudCallback>;

    open spec fn view(&self) -> Map<Seq<char>, CrudCallback> {
        pairs_view(self.entries@)
    }
}

impl CallbackContainer {
    pub fn new() -> (r: CallbackContainer)
        ensures
            r@ == Map::<Seq<char>, CrudCallback>::empty(),
    {
        CallbackContainer { entries: Vec::new() }
    }

    /// Registers an operation under a function name.
    pub fn insert(&mut self, function_name: &str, callback: CrudCallback)
        ensures
            final(self)@ == old(self)@.insert(function_name@, callback),
    {
        let ghost before = self.entries@;
        let k = string_of(function_name);
        self.entries.push((k, callback));
        proof {
            lemma_pairs_view_push(before, (k, callback));
        }
    }

    /// The operation registered under a function name, if any.
    pub fn get(&self, function_name: &str) -> (r: Option<CrudCallback>)
        ensures
            r == (if self@.contains_key(function_name@) {
                Some(self@[function_name@])
            } else {
                None
            }),
    {
        match pairs_find(&self.entries, function_name) {
            Some(i) => Some(self.entries[i].1),
            None => None,
        }
    }
}

/// The operations of all classes, by class name and function name.
pub struct ClassCallbackContainer {
    pub entries: Vec<(String, CallbackContainer)>,
}

impl View for ClassCallbackContainer {
    type V = Map<Seq<char>, Map<Seq<char>, CrudCallback>>;

    open spec fn view(&self) -> Map<Seq<char>, Map<Seq<char>, CrudCallback>> {
        pairs_view(self.entries@).map_values(|c: CallbackContainer| c@)
    }
}

impl ClassCallbackContainer {
    pub fn new() -> (r: ClassCallbackContainer)
        ensures
            r@ == Map::<Seq<char>, Map<Seq<char>, CrudCallback>>::empty(),
    {
        let r = ClassCallbackContainer { entries: Vec::new() };
        proof {
            assert(r@ =~= Map::<Seq<char>, Map<Seq<char>, CrudCallback>>::empty());
        }
        r
    }

    /// Registers the operations of a class.
    pub fn insert(&mut self, class_name: &str, callbacks: CallbackContainer)
        ensures
            final(self)@ == old(self)@.insert(class_name@, callbacks@),
    {
        let ghost before = self.entries@;
        let ghost cv = callbacks@;
        let k = string_of(class_name);
        let ghost e = (k, callbacks);
        self.entries.push((k, callbacks));
        proof {
            lemma_pairs_view_push(before, e);
            assert(self@ =~= pairs_view(before).map_values(|c: CallbackContainer| c@).insert(class_name@, cv));
        }
    }

    /// The operation registered under a class name and a function name, if any.
    pub fn get(&self, class_name: &str, function_name: &str) -> (r: Option<CrudCallback>)
        ensures
            r == (if self@.contains_key(class_name@) && self@[class_name@].contains_key(function_name@) {
                Some(self@[class_name@][function_name@])
            } else {
                None
            }),
    {
        match pairs_find(&self.entries, class_name) {
            Some(i) => self.entries[i].1.get(function_name),
            None => None,
        }
    }
}

/// The operations that create objects.
pub open spec fn create_callbacks() -> Map<Seq<char>, Map<Seq<char>, CrudCallback>> {
    map![
        "process"@ => map!["create"@ => CrudCallback::ProcessCreate],
        "container"@ => map!["create"@ => CrudCallback::ContainerCreate],
        "container_process"@ => map!["create"@ => CrudCallback::ContainerProcessCreate],
        "execution_context"@ => map!["create"@ => CrudCallback::ExecutionContextCreate],
        "connection"@ => map!["create"@ => CrudCallback::ConnectionCreate],
    ]
}

/// The operations that read objects.
pub open spec fn read_callbacks() -> Map<Seq<char>, Map<Seq<char>, CrudCallback>> {
    map![
        "system"@ => map![
            "profile_full"@ => CrudCallback::SystemProfileFull,
            "filesystem_list"@ => CrudCallback::SystemFilesystemList,
            "add_subsystem"@ => CrudCallback::SystemAddSubsystem,
        ],
        "broker"@ => map![
            "profile_full"@ => CrudCallback::BrokerProfileFull,
            "list"@ => CrudCallback::BrokerList,
        ],
        "process"@ => map![
            "profile_full"@ => CrudCallback::ProcessProfileFull,
            "list"@ => CrudCallback::ProcessList,
        ],
        "container"@ => map![
            "profile_full"@ => CrudCallback::ContainerProfileFull,
            "list"@ => CrudCallback::ContainerList,
        ],
        "container_process"@ => map![
            "profile_full"@ => CrudCallback::ContainerProcessProfileFull,
            "list"@ => CrudCallback::ContainerProcessList,
        ],
        "connection"@ => map![
            "profile_full"@ => CrudCallback::ConnectionProfileFull,
            "list"@ => CrudCallback::ConnectionList,
        ],
        "execution_context"@ => map![
            "profile_full"@ => CrudCallback::ExecutionContextProfileFull,
            "list"@ => CrudCallback::ExecutionContextList,
            "get_state"@ => CrudCallback::ExecutionContextGetState,
        ],
    ]
}

/// The operations that update objects.
pub open spec fn update_callbacks() -> Map<Seq<char>, Map<Seq<char>, CrudCallback>> {
    map![
        "process"@ => map![
            "call"@ => CrudCallback::ProcessCall,
            "execute"@ => CrudCallback::ProcessExecute,
        ],
        "container_process"@ => map![
            "call"@ => CrudCallback::ContainerProcessCall,
            "execute"@ => CrudCallback::ContainerProcessExecute,
        ],
        "execution_context"@ => map![
            "start"@ => CrudCallback::ExecutionContextStart,
            "stop"@ => CrudCallback::ExecutionContextStop,
        ],
    ]
}

/// The operations that delete objects.
pub open spec fn delete_callbacks() -> Map<Seq<char>, Map<Seq<char>, CrudCallback>> {
    map![
        "process"@ => map!["destroy"@ => CrudCallback::ProcessDestroy],
        "container_process"@ => map!["destroy"@ => CrudCallback::ContainerProcessDestroy],
        "container"@ => map!["destroy"@ => CrudCallback::ContainerDestroy],
    ]
}

/// Each entry of the CRUD tables: the function of a class that a CRUD call
/// names reaches the broker operation of that class and function.
pub proof fn law_crud_tables_entries()
    ensures
        create_callbacks()["process"@]["create"@] == CrudCallback::ProcessCreate,
        create_callbacks()["container"@]["create"@] == CrudCallback::ContainerCreate,
        create_callbacks()["container_process"@]["create"@] == CrudCallback::ContainerProcessCreate,
        create_callbacks()["execution_context"@]["create"@] == CrudCallback::ExecutionContextCreate,
        create_callbacks()["connection"@]["create"@] == CrudCallback::ConnectionCreate,
        read_callbacks()["system"@]["profile_full"@] == CrudCallback::SystemProfileFull,
        read_callbacks()["system"@]["filesystem_list"@] == CrudCallback::SystemFilesystemList,
        read_callbacks()["system"@]["add_subsystem"@] == CrudCallback::SystemAddSubsystem,
        read_callbacks()["broker"@]["profile_full"@] == CrudCallback::BrokerProfileFull,
        read_callbacks()["broker"@]["list"@] == CrudCallback::BrokerList,
        read_callbacks()["process"@]["profile_full"@] == CrudCallback::ProcessProfileFull,
        read_callbacks()["process"@]["list"@] == CrudCallback::ProcessList,
        read_callbacks()["container"@]["profile_full"@] == CrudCallback::ContainerProfileFull,
        read_callbacks()["container"@]["list"@] == CrudCallback::ContainerList,
        read_callbacks()["container_process"@]["profile_full"@] == CrudCallback::ContainerProcessProfileFull,
        read_callbacks()["container_process"@]["list"@] == CrudCallback::ContainerProcessList,
        read_callbacks()["connection"@]["profile_full"@] == CrudCallback::ConnectionProfileFull,
        read_callbacks()["connection"@]["list"@] == CrudCallback::ConnectionList,
        read_callbacks()["execution_context"@]["profile_full"@] == CrudCallback::ExecutionContextProfileFull,
        read_callbacks()["execution_context"@]["list"@] == CrudCallback::ExecutionContextList,
        read_callbacks()["execution_context"@]["get_state"@] == CrudCallback::ExecutionContextGetState,
        update_callbacks()["process"@]["call"@] == CrudCallback::ProcessCall,
        update_callbacks()["process"@]["execute"@] == CrudCallback::ProcessExecute,
        update_callbacks()["container_process"@]["call"@] == CrudCallback::ContainerProcessCall,
        update_callbacks()["container_process"@]["execute"@] == CrudCallback::ContainerProcessExecute,
        update_callbacks()["execution_context"@]["start"@] == CrudCallback::ExecutionContextStart,
        update_callbacks()["execution_context"@]["stop"@] == CrudCallback::ExecutionContextStop,
        delete_callbacks()["process"@]["destroy"@] == CrudCallback::ProcessDestroy,
        delete_callbacks()["container_process"@]["destroy"@] == CrudCallback::ContainerProcessDestroy,
        delete_callbacks()["container"@]["destroy"@] == CrudCallback::ContainerDestroy,
{
    reveal_strlit("process");
    reveal_strlit("container");
    reveal_strlit("container_process");
    reveal_strlit("execution_context");
    reveal_strlit("connection");
    reveal_strlit("system");
    reveal_strlit("broker");
    reveal_strlit("create");
    reveal_strlit("profile_full");
    reveal_strlit("filesystem_list");
    reveal_strlit("add_subsystem");
    reveal_strlit("list");
    reveal_strlit("get_state");
    reveal_strlit("call");
    reveal_strlit("execute");
    reveal_strlit("start");
    reveal_strlit("stop");
    reveal_strlit("destroy");
    assert("process"@.len() == 7 && "container"@.len() == 9 && "container_process"@.len() == 17);
    assert("execution_context"@.len() == 17 && "connection"@.len() == 10);
    assert("container_process"@[0] != "execution_context"@[0]);
    assert("system"@.len() == 6 && "broker"@.len() == 6 && "system"@[0] != "broker"@[0]);
    assert("create"@.len() == 6 && "profile_full"@.len() == 12 && "filesystem_list"@.len() == 15);
    assert("add_subsystem"@.len() == 13 && "list"@.len() == 4 && "get_state"@.len() == 9);
    assert("call"@.len() == 4 && "execute"@.len() == 7 && "start"@.len() == 5 && "stop"@.len() == 4);
    assert("destroy"@.len() == 7);
}

/// Within a class of a table, distinct function names reach distinct
/// operations.
pub open spec fn functions_distinct(table: Map<Seq<char>, Map<Seq<char>, CrudCallback>>) -> bool {
    forall|c: Seq<char>, f1: Seq<char>, f2: Seq<char>|
        table.contains_key(c) && #[trigger] table[c].contains_key(f1) && #[trigger] table[c].contains_key(f2) && f1
            != f2 ==> table[c][f1] != table[c][f2]
}

/// In every CRUD table, distinct function names of one class reach distinct
/// operations.
pub proof fn law_crud_functions_distinct()
    ensures
        functions_distinct(create_callbacks()),
        functions_distinct(read_callbacks()),
        functions_distinct(update_callbacks()),
        functions_distinct(delete_callbacks()),
{
    reveal_strlit("process");
    reveal_strlit("container");
    reveal_strlit("container_process");
    reveal_strlit("execution_context");
    reveal_strlit("connection");
    reveal_strlit("system");
    reveal_strlit("broker");
    reveal_strlit("create");
    reveal_strlit("profile_full");
    reveal_strlit("filesystem_list");
    reveal_strlit("add_subsystem");
    reveal_strlit("list");
    reveal_strlit("get_state");
    reveal_strlit("call");
    reveal_strlit("execute");
    reveal_strlit("start");
    reveal_strlit("stop");
    reveal_strlit("destroy");
    let t = update_callbacks();
    assert forall|c: Seq<char>, f1: Seq<char>, f2: Seq<char>|
        t.contains_key(c) && #[trigger] t[c].contains_key(f1) && #[trigger] t[c].contains_key(f2) && f1 != f2 implies t[c][f1]
        != t[c][f2] by {
        assert(c == "process"@ || c == "container_process"@ || c == "execution_context"@);
    }
    let t = read_callbacks();
    assert forall|c: Seq<char>, f1: Seq<char>, f2: Seq<char>|
        t.contains_key(c) && #[trigger] t[c].contains_key(f1) && #[trigger] t[c].contains_key(f2) && f1 != f2 implies t[c][f1]
        != t[c][f2] by {
        assert(c == "system"@ || c == "broker"@ || c == "process"@ || c == "container"@ || c == "container_process"@
            || c == "connection"@ || c == "execution_context"@);
    }
}

/// A container that holds one operation under one function name.
fn single(function_name: &str, callback: CrudCallback) -> (r: CallbackContainer)
    ensures
        r@ == map![function_name@ => callback],
{
    let mut c = CallbackContainer::new();
    c.insert(function_name, callback);
    c
}

/// A container that holds two operations.
fn pair(f1: &str, c1: CrudCallback, f2: &str, c2: CrudCallback) -> (r: CallbackContainer)
    ensures
        r@ == map![f1@ => c1, f2@ => c2],
{
    let mut c = CallbackContainer::new();
    c.insert(f1, c1);
    c.insert(f2, c2);
    c
}

/// A container that holds three operations.
fn triple(f1: &str, c1: CrudCallback, f2: &str, c2: CrudCallback, f3: &str, c3: CrudCallback) -> (r: CallbackContainer)
    ensures
        r@ == map![f1@ => c1, f2@ => c2, f3@ => c3],
{
    let mut c = CallbackContainer::new();
    c.insert(f1, c1);
    c.insert(f2, c2);
    c.insert(f3, c3);
    c
}

/// The operations that create objects, by class and function.
pub fn create_callback_container() -> (r: ClassCallbackContainer)
    ensures
        r@ == create_callbacks(),
{
    let mut c = ClassCallbackContainer::new();
    c.insert("process", single("create", CrudCallback::ProcessCreate));
    c.insert("container", single("create", CrudCallback::ContainerCreate));
    c.insert("container_process", single("create", CrudCallback::ContainerProcessCreate));
    c.insert("execution_context", single("create", CrudCallback::ExecutionContextCreate));
    c.insert("connection", single("create", CrudCallback::ConnectionCreate));
    c
}

/// The operations that read objects, by class and function.
pub fn read_callback_container() -> (r: ClassCallbackContainer)
    ensures
        r@ == read_callbacks(),
{
    let mut c = ClassCallbackContainer::new();
    c.insert(
        "system",
        triple(
            "profile_full",
            CrudCallback::SystemProfileFull,
            "filesystem_list",
            CrudCallback::SystemFilesystemList,
            "add_subsystem",
            CrudCallback::SystemAddSubsystem,
        ),
    );
    c.insert("broker", pair("profile_full", CrudCallback::BrokerProfileFull, "list", CrudCallback::BrokerList));
    c.insert("process", pair("profile_full", CrudCallback::ProcessProfileFull, "list", CrudCallback::ProcessList));
    c.insert(
        "container",
        pair("profile_full", CrudCallback::ContainerProfileFull, "list", CrudCallback::ContainerList),
    );
    c.insert(
        "container_process",
        pair("profile_full", CrudCallback::ContainerProcessProfileFull, "list", CrudCallback::ContainerProcessList),
    );
    c.insert(
        "connection",
        pair("profile_full", CrudCallback::ConnectionProfileFull, "list", CrudCallback::ConnectionList),
    );
    c.insert(
        "execution_context",
        triple(
            "profile_full",
            CrudCallback::ExecutionContextProfileFull,
            "list",
            CrudCallback::ExecutionContextList,
            "get_state",
            CrudCallback::ExecutionContextGetState,
        ),
    );
    c
}

/// The operations that update objects, by class and function.
pub fn update_callback_container() -> (r: ClassCallbackContainer)
    ensures
        r@ == update_callbacks(),
{
    let mut c = ClassCallbackContainer::new();
    c.insert("process", pair("call", CrudCallback::ProcessCall, "execute", CrudCallback::ProcessExecute));
    c.insert(
        "container_process",
        pair("call", CrudCallback::ContainerProcessCall, "execute", CrudCallback::ContainerProcessExecute),
    );
    c.insert(
        "execution_context",
        pair("start", CrudCallback::ExecutionContextStart, "stop", CrudCallback::ExecutionContextStop),
    );
    c
}

/// The operations that delete objects, by class and function.
pub fn delete_callback_container() -> (r: ClassCallbackContainer)
    ensures
        r@ == delete_callbacks(),
{
    let mut c = ClassCallbackContainer::new();
    c.insert("process", single("destroy", CrudCallback::ProcessDestroy));
    c.insert("container_process", single("destroy", CrudCallback::ContainerProcessDestroy));
    c.insert("container", single("destroy", CrudCallback::ContainerDestroy));
    c
}

/// The arguments of a CRUD call: named text parameters and named values.
#[derive(Debug, PartialEq)]
pub struct CrudArgs {
    pub params: Vec<(String, String)>,
    pub values: Vec<(String, Value)>,
}

/// A CRUD call ready for the broker: the operation with what it reads from
/// the arguments.
#[derive(Debug, PartialEq)]
pub enum CrudRequest {
    /// An operation that reads nothing from the arguments.
    Plain(CrudCallback),
    /// An operation on the object with the identifier.
    Identified(CrudCallback, String),
    /// A call of the process with the identifier, handed the whole arguments.
    Call(CrudCallback, String, CrudArgs),
    /// A creation from the value that the arguments' values make.
    Create(CrudCallback, Value),
    /// A creation in the object with the identifier, from the value that the
    /// arguments' values make.
    CreateIn(CrudCallback, String, Value),
    /// A listing of the directory at the path.
    FilesystemList(String),
    /// Adding the subsystem that the profile describes.
    AddSubsystem(Value),
}

/// The operations that create an object from the arguments.
pub open spec fn is_create(callback: CrudCallback) -> bool {
    match callback {
        CrudCallback::ProcessCreate
        | CrudCallback::ContainerCreate
        | CrudCallback::ContainerProcessCreate
        | CrudCallback::ExecutionContextCreate
        | CrudCallback::ConnectionCreate => true,
        _ => false,
    }
}

/// The operations that call a process with the arguments.
pub open spec fn is_call(callback: CrudCallback) -> bool {
    callback == CrudCallback::ProcessCall || callback == CrudCallback::ContainerProcessCall
}

/// The operations that act on one object and read its `identifier` parameter.
pub open spec fn needs_identifier(callback: CrudCallback) -> bool {
    match callback {
        CrudCallback::ContainerProcessCreate
        | CrudCallback::BrokerProfileFull
        | CrudCallback::ProcessProfileFull
        | CrudCallback::ContainerProfileFull
        | CrudCallback::ContainerProcessProfileFull
        | CrudCallback::ConnectionProfileFull
        | CrudCallback::ExecutionContextProfileFull
        | CrudCallback::ExecutionContextGetState
        | CrudCallback::ProcessCall
        | CrudCallback::ProcessExecute
        | CrudCallback::ContainerProcessCall
        | CrudCallback::ContainerProcessExecute
        | CrudCallback::ExecutionContextStart
        | CrudCallback::ExecutionContextStop
        | CrudCallback::ProcessDestroy
        | CrudCallback::ContainerProcessDestroy
        | CrudCallback::ContainerDestroy => true,
        _ => false,
    }
}

impl CrudCallback {
    /// Whether the operation acts on one object named by its `identifier` parameter.
    pub fn needs_identifier(&self) -> (r: bool)
        ensures
            r == needs_identifier(*self),
    {
        match self {
            CrudCallback::ContainerProcessCreate
            | CrudCallback::BrokerProfileFull
            | CrudCallback::ProcessProfileFull
            | CrudCallback::ContainerProfileFull
            | CrudCallback::ContainerProcessProfileFull
            | CrudCallback::ConnectionProfileFull
            | CrudCallback::ExecutionContextProfileFull
            | CrudCallback::ExecutionContextGetState
            | CrudCallback::ProcessCall
            | CrudCallback::ProcessExecute
            | CrudCallback::ContainerProcessCall
            | CrudCallback::ContainerProcessExecute
            | CrudCallback::ExecutionContextStart
            | CrudCallback::ExecutionContextStop
            | CrudCallback::ProcessDestroy
            | CrudCallback::ContainerProcessDestroy
            | CrudCallback::ContainerDestroy => true,
            _ => false,
        }
    }
}

/// The identifier parameter of the arguments, where there is one.
pub open spec fn identifier_param(args: CrudArgs) -> Option<Seq<char>> {
    if pairs_view(args.params@).contains_key("identifier"@) {
        Some(pairs_view(args.params@)["identifier"@]@)
    } else {
        None
    }
}

/// Whether `r` is the request for an operation that needs the identifier
/// parameter: the failure `CRUDBrokerCanNotParameterFunctionError` without
/// it, else the request that carries it (with the whole arguments for a call,
/// with the creation value for a creation in an object).
pub open spec fn identified_request(callback: CrudCallback, args: CrudArgs, r: Result<CrudRequest, JuizError>) -> bool {
    match identifier_param(args) {
        None => r matches Err(JuizError::CRUDBrokerCanNotParameterFunctionError { key_name }) && key_name@
            == "identifier"@,
        Some(id) => if is_call(callback) {
            r matches Ok(CrudRequest::Call(c, i, a)) && c == callback && i@ == id && a == args
        } else if is_create(callback) {
            r matches Ok(CrudRequest::CreateIn(c, i, v)) && c == callback && i@ == id && v == Value::Object(args.values)
        } else {
            r matches Ok(CrudRequest::Identified(c, i)) && c == callback && i@ == id
        },
    }
}

/// What reading the call's arguments for an operation gives (see
/// `prepare_request`).
pub open spec fn prepared(callback: CrudCallback, args: CrudArgs, r: Result<CrudRequest, JuizError>) -> bool {
    if needs_identifier(callback) {
        identified_request(callback, args, r)
    } else if is_create(callback) {
        r == Ok::<CrudRequest, JuizError>(CrudRequest::Create(callback, Value::Object(args.values)))
    } else if callback == CrudCallback::SystemFilesystemList {
        r matches Ok(CrudRequest::FilesystemList(path)) && path@ == (if pairs_view(args.params@).contains_key(
            "path"@,
        ) {
            pairs_view(args.params@)["path"@]@
        } else {
            "."@
        })
    } else if callback == CrudCallback::SystemAddSubsystem {
        if json_get(crate::value::object_view(args.values@), "profile"@) is Some {
            r matches Ok(CrudRequest::AddSubsystem(v)) && Some(v@) == json_get(
                crate::value::object_view(args.values@),
                "profile"@,
            )
        } else {
            r matches Err(JuizError::ValueWithKeyNotFoundError { key }) && key@ == "profile"@
        }
    } else {
        r == Ok::<CrudRequest, JuizError>(CrudRequest::Plain(callback))
    }
}

/// A request whose operation takes what the request carries: a plain request
/// for an operation that reads nothing, an identified one for an operation on
/// one object, a call for a process call, a creation (in an object or not) for
/// a creation.
pub open spec fn request_fits(q: CrudRequest) -> bool {
    match q {
        CrudRequest::Plain(c) => !needs_identifier(c) && !is_create(c) && c != CrudCallback::SystemFilesystemList && c
            != CrudCallback::SystemAddSubsystem,
        CrudRequest::Identified(c, _) => needs_identifier(c) && !is_call(c) && !is_create(c),
        CrudRequest::Call(c, _, _) => is_call(c),
        CrudRequest::Create(c, _) => is_create(c) && !needs_identifier(c),
        CrudRequest::CreateIn(c, _, _) => is_create(c) && needs_identifier(c),
        CrudRequest::FilesystemList(_) => true,
        CrudRequest::AddSubsystem(_) => true,
    }
}

/// Reads what an operation needs from the call's arguments. An operation on
/// one object takes the `identifier` parameter and fails with
/// `CRUDBrokerCanNotParameterFunctionError` without it; a call hands on the
/// whole arguments; a creation takes the object that the arguments' values
/// make; a directory listing takes the `path` parameter, `.` without it;
/// adding a subsystem takes the `profile` value and fails with
/// `ValueWithKeyNotFoundError` without it.
pub fn prepare_request(callback: CrudCallback, args: CrudArgs) -> (r: Result<CrudRequest, JuizError>)
    ensures
        prepared(callback, args, r),
        r matches Ok(q) ==> request_fits(q),
{
    let is_call = callback == CrudCallback::ProcessCall || callback == CrudCallback::ContainerProcessCall;
    let is_create = callback == CrudCallback::ProcessCreate || callback == CrudCallback::ContainerCreate || callback
        == CrudCallback::ContainerProcessCreate || callback == CrudCallback::ExecutionContextCreate || callback
        == CrudCallback::ConnectionCreate;
    if callback.needs_identifier() {
        match pairs_find(&args.params, "identifier") {
            Some(i) => {
                let id = args.params[i].1.clone();
                if is_call {
                    Ok(CrudRequest::Call(callback, id, args))
                } else if is_create {
                    Ok(CrudRequest::CreateIn(callback, id, Value::Object(args.values)))
                } else {
                    Ok(CrudRequest::Identified(callback, id))
                }
            },
            None => Err(JuizError::CRUDBrokerCanNotParameterFunctionError { key_name: string_of("identifier") }),
        }
    } else if is_create {
        Ok(CrudRequest::Create(callback, Value::Object(args.values)))
    } else if callback == CrudCallback::SystemFilesystemList {
        match pairs_find(&args.params, "path") {
            Some(i) => Ok(CrudRequest::FilesystemList(args.params[i].1.clone())),
            None => Ok(CrudRequest::FilesystemList(string_of("."))),
        }
    } else if callback == CrudCallback::SystemAddSubsystem {
        match crate::value::entries_find(&args.values, "profile") {
            Some(i) => Ok(CrudRequest::AddSubsystem(args.values[i].1.duplicate())),
            None => Err(JuizError::ValueWithKeyNotFoundError { key: string_of("profile") }),
        }
    } else {
        Ok(CrudRequest::Plain(callback))
    }
}

} // verus!
