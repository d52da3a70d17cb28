use vstd::prelude::*;
use crate::crud::{CrudArgs, CrudCallback, CrudRequest, prepare_request, prepared, request_fits};
use crate::error::JuizError;
use crate::value::Value;

verus! {

/// A broker as the CRUD operations reach it, which brokers and their proxies
/// implement. Each operation answers the request it stands for (see
/// `answers`).
pub trait BrokerProxy {
    /// Whether `r` is an answer of the broker to the request. Brokers that say
    /// nothing of their answers leave it `true`.
    open spec fn answers(&self, request: CrudRequest, r: Result<Value, JuizError>) -> bool {
        true
    }

    fn system_profile_full(&self) -> (r: Result<Value, JuizError>)
        ensures
            self.answers(CrudRequest::Plain(CrudCallback::SystemProfileFull), r),
    ;

    fn system_filesystem_list(&self, path: String) -> (r: Result<Value, JuizError>)
        ensures
            self.answers(CrudRequest::FilesystemList(path), r),
    ;

    fn system_add_subsystem(&mut self, profile: Value) -> (r: Result<Value, JuizError>)
        ensures
            old(self).answers(CrudRequest::AddSubsystem(profile), r),
    ;

    fn broker_profile_full(&self, id: &String) -> (r: Result<Value, JuizError>)
        ensures
            self.answers(CrudRequest::Identified(CrudCallback::BrokerProfileFull, *id), r),
    ;

    fn broker_list(&self) -> (r: Result<Value, JuizError>)
        ensures
            self.answers(CrudRequest::Plain(CrudCallback::BrokerList), r),
    ;

    fn process_create(&mut self, manifest: &Value) -> (r: Result<Value, JuizError>)
        ensures
            old(self).answers(CrudRequest::Create(CrudCallback::ProcessCreate, *manifest), r),
    ;

    fn process_profile_full(&self, id: &String) -> (r: Result<Value, JuizError>)
        ensures
            self.answers(CrudRequest::Identified(CrudCallback::ProcessProfileFull, *id), r),
    ;

    fn process_list(&self) -> (r: Result<Value, JuizError>)
        ensures
            self.answers(CrudRequest::Plain(CrudCallback::ProcessList), r),
    ;

    fn process_call(&self, id: &String, args: CrudArgs) -> (r: Result<Value, JuizError>)
        ensures
            self.answers(CrudRequest::Call(CrudCallback::ProcessCall, *id, args), r),
    ;

    fn process_execute(&self, id: &String) -> (r: Result<Value, JuizError>)
        ensures
            self.answers(CrudRequest::Identified(CrudCallback::ProcessExecute, *id), r),
    ;

    fn process_destroy(&mut self, id: &String) -> (r: Result<Value, JuizError>)
        ensures
            old(self).answers(CrudRequest::Identified(CrudCallback::ProcessDestroy, *id), r),
    ;

    fn container_create(&mut self, manifest: &Value) -> (r: Result<Value, JuizError>)
        ensures
            old(self).answers(CrudRequest::Create(CrudCallback::ContainerCreate, *manifest), r),
    ;

    fn container_profile_full(&self, id: &String) -> (r: Result<Value, JuizError>)
        ensures
            self.answers(CrudRequest::Identified(CrudCallback::ContainerProfileFull, *id), r),
    ;

    fn container_list(&self) -> (r: Result<Value, JuizError>)
        ensures
            self.answers(CrudRequest::Plain(CrudCallback::ContainerList), r),
    ;

    fn container_destroy(&mut self, id: &String) -> (r: Result<Value, JuizError>)
        ensures
            old(self).answers(CrudRequest::Identified(CrudCallback::ContainerDestroy, *id), r),
    ;

    fn container_process_create(&mut self, container_id: &String, manifest: &Value) -> (r: Result<Value, JuizError>)
        ensures
            old(self).answers(
                CrudRequest::CreateIn(CrudCallback::ContainerProcessCreate, *container_id, *manifest),
                r,
            ),
    ;

    fn container_process_profile_full(&self, id: &String) -> (r: Result<Value, JuizError>)
        ensures
            self.answers(CrudRequest::Identified(CrudCallback::ContainerProcessProfileFull, *id), r),
    ;

    fn container_process_list(&self) -> (r: Result<Value, JuizError>)
        ensures
            self.answers(CrudRequest::Plain(CrudCallback::ContainerProcessList), r),
    ;

    fn container_process_call(&self, id: &String, args: CrudArgs) -> (r: Result<Value, JuizError>)
        ensures
            self.answers(CrudRequest::Call(CrudCallback::ContainerProcessCall, *id, args), r),
    ;

    fn container_process_execute(&self, id: &String) -> (r: Result<Value, JuizError>)
        ensures
            self.answers(CrudRequest::Identified(CrudCallback::ContainerProcessExecute, *id), r),
    ;

    fn container_process_destroy(&mut self, id: &String) -> (r: Result<Value, JuizError>)
        ensures
            old(self).answers(CrudRequest::Identified(CrudCallback::ContainerProcessDestroy, *id), r),
    ;

    fn connection_create(&mut self, manifest: Value) -> (r: Result<Value, JuizError>)
        ensures
            old(self).answers(CrudRequest::Create(CrudCallback::ConnectionCreate, manifest), r),
    ;

    fn connection_profile_full(&self, id: &String) -> (r: Result<Value, JuizError>)
        ensures
            self.answers(CrudRequest::Identified(CrudCallback::ConnectionProfileFull, *id), r),
    ;

    fn connection_list(&self) -> (r: Result<Value, JuizError>)
        ensures
            self.answers(CrudRequest::Plain(CrudCallback::ConnectionList), r),
    ;

    fn ec_create(&mut self, manifest: &Value) -> (r: Result<Value, JuizError>)
        ensures
            old(self).answers(CrudRequest::Create(CrudCallback::ExecutionContextCreate, *manifest), r),
    ;

    fn ec_profile_full(&self, id: &String) -> (r: Result<Value, JuizError>)
        ensures
            self.answers(CrudRequest::Identified(CrudCallback::ExecutionContextProfileFull, *id), r),
    ;

    fn ec_list(&self) -> (r: Result<Value, JuizError>)
        ensures
            self.answers(CrudRequest::Plain(CrudCallback::ExecutionContextList), r),
    ;

    fn ec_get_state(&self, id: &String) -> (r: Result<Value, JuizError>)
        ensures
            self.answers(CrudRequest::Identified(CrudCallback::ExecutionContextGetState, *id), r),
    ;

    fn ec_start(&mut self, id: &String) -> (r: Result<Value, JuizError>)
        ensures
            old(self).answers(CrudRequest::Identified(CrudCallback::ExecutionContextStart, *id), r),
    ;

    fn ec_stop(&mut self, id: &String) -> (r: Result<Value, JuizError>)
        ensures
            old(self).answers(CrudRequest::Identified(CrudCallback::ExecutionContextStop, *id), r),
    ;
}

/// Hands the request to the broker operation that it stands for, and hands
/// back the broker's answer.
pub fn execute_request<B: BrokerProxy>(broker: &mut B, request: CrudRequest) -> (r: Result<Value, JuizError>)
    requires
        request_fits(request),
    ensures
        old(broker).answers(request, r),
{
    match request {
        CrudRequest::Plain(c) => match c {
            CrudCallback::SystemProfileFull => broker.system_profile_full(),
            CrudCallback::BrokerList => broker.broker_list(),
            CrudCallback::ProcessList => broker.process_list(),
            CrudCallback::ContainerList => broker.container_list(),
            CrudCallback::ContainerProcessList => broker.container_process_list(),
            CrudCallback::ConnectionList => broker.connection_list(),
            _ => {
                assert(c == CrudCallback::ExecutionContextList);
                broker.ec_list()
            },
        },
        CrudRequest::Identified(c, id) => match c {
            CrudCallback::BrokerProfileFull => broker.broker_profile_full(&id),
            CrudCallback::ProcessProfileFull => broker.process_profile_full(&id),
            CrudCallback::ContainerProfileFull => broker.container_profile_full(&id),
            CrudCallback::ContainerProcessProfileFull => broker.container_process_profile_full(&id),
            CrudCallback::ConnectionProfileFull => broker.connection_profile_full(&id),
            CrudCallback::ExecutionContextProfileFull => broker.ec_profile_full(&id),
            CrudCallback::ExecutionContextGetState => broker.ec_get_state(&id),
            CrudCallback::ProcessExecute => broker.process_execute(&id),
            CrudCallback::ContainerProcessExecute => broker.container_process_execute(&id),
            CrudCallback::ExecutionContextStart => broker.ec_start(&id),
            CrudCallback::ExecutionContextStop => broker.ec_stop(&id),
            CrudCallback::ProcessDestroy => broker.process_destroy(&id),
            CrudCallback::ContainerProcessDestroy => broker.container_process_destroy(&id),
            _ => {
                assert(c == CrudCallback::ContainerDestroy);
                broker.container_destroy(&id)
            },
        },
        CrudRequest::Call(c, id, args) => match c {
            CrudCallback::ProcessCall => broker.process_call(&id, args),
            _ => {
                assert(c == CrudCallback::ContainerProcessCall);
                broker.container_process_call(&id, args)
            },
        },
        CrudRequest::Create(c, manifest) => match c {
            CrudCallback::ProcessCreate => broker.process_create(&manifest),
            CrudCallback::ContainerCreate => broker.container_create(&manifest),
            CrudCallback::ExecutionContextCreate => broker.ec_create(&manifest),
            _ => {
                assert(c == CrudCallback::ConnectionCreate);
                broker.connection_create(manifest)
            },
        },
        CrudRequest::CreateIn(c, id, manifest) => {
            assert(c == CrudCallback::ContainerProcessCreate);
            broker.container_process_create(&id, &manifest)
        },
        CrudRequest::FilesystemList(path) => broker.system_filesystem_list(path),
        CrudRequest::AddSubsystem(profile) => broker.system_add_subsystem(profile),
    }
}

/// Performs a CRUD operation on the broker: reads what the operation needs
/// from the arguments (see `prepare_request`) and hands the request to the
/// broker. Where reading fails, the broker is not asked and its error is
/// handed back.
pub fn call_callback<B: BrokerProxy>(broker: &mut B, callback: CrudCallback, args: CrudArgs) -> (r: Result<
    Value,
    JuizError,
>)
    ensures
        exists|p: Result<CrudRequest, JuizError>|
            #[trigger] prepared(callback, args, p) && match p {
                Ok(q) => old(broker).answers(q, r),
                Err(e) => r == Err::<Value, JuizError>(e) && *final(broker) == *old(broker),
            },
{
    let ghost a = args;
    match prepare_request(callback, args) {
        Ok(q) => {
            let ghost gq = q;
            let r = execute_request(broker, q);
            proof {
                assert(prepared(callback, a, Ok::<CrudRequest, JuizError>(gq)));
            }
            r
        },
        Err(e) => {
            let ghost ge = e;
            proof {
                assert(prepared(callback, a, Err::<CrudRequest, JuizError>(ge)));
            }
            Err(e)
        },
    }
}

} // verus!
