pub mod error;
pub mod strings;
pub mod pairs;
pub mod value;
pub mod identifier;
pub mod object;
pub mod connection;
pub mod plugin;
pub mod process;
pub mod python_container_factory;
pub mod broker_factories_wrapper;
pub mod crud;
pub mod listing;
pub mod execution_context;
pub mod core_broker;
pub mod broker_proxy;
