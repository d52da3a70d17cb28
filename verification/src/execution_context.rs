use vstd::prelude::*;
use crate::error::JuizError;
use crate::value::Value;

verus! {

/// A service that an execution context runs.
pub trait ECServiceFunction: Fn() -> Result<(), JuizError> + Send + Sync {

}

/// A context that runs services: it is told when it starts and when it stops,
/// and can describe itself. `Core` is the shared state that it is handed.
pub trait ExecutionContext {
    type Core;

    fn name(&self) -> &str;

    fn typename(&self) -> &str;

    /// Called as the context starts; by default nothing is done.
    fn on_starting(&mut self, _svc: Self::Core) -> (r: Result<(), JuizError>)
        default_ensures
            r is Ok,
    {
        Ok(())
    }

    /// Called as the context stops; by default nothing is done.
    fn on_stopping(&mut self, _core: Self::Core) -> (r: Result<(), JuizError>)
        default_ensures
            r is Ok,
    {
        Ok(())
    }

    fn profile(&self) -> Result<Value, JuizError>;
}

} // verus!
