use vstd::prelude::*;
use crate::error::JuizError;
use crate::plugin::JuizObjectPlugin;
use crate::strings::string_of;
use crate::value::{JsonView, Value};

verus! {

/// A factory of brokers of one type, which plugins provide.
pub trait BrokerFactory {
    type Broker;

    /// The type of the brokers that the factory makes.
    fn typename(&self) -> &str;

    /// Whether `r` is an outcome of asking the factory for its profile.
    /// Factories that say nothing of it leave it `true`.
    open spec fn gives_profile(&self, r: Result<Value, JuizError>) -> bool {
        true
    }

    fn profile_full(&self) -> (r: Result<Value, JuizError>)
        ensures
            self.gives_profile(r),
    ;

    /// Whether `r` is an outcome of making a broker from a manifest with the
    /// view `manifest`. Factories that say nothing of it leave it `true`.
    open spec fn makes_broker(&self, manifest: JsonView, r: Result<Self::Broker, JuizError>) -> bool {
        true
    }

    fn create_broker(&self, manifest: Value) -> (r: Result<Self::Broker, JuizError>)
        ensures
            self.makes_broker(manifest@, r),
    ;
}

/// A factory of proxies to brokers of one type, which plugins provide.
pub trait BrokerProxyFactory {
    type BrokerProxy;

    /// The type of the brokers that the proxies reach.
    fn typename(&self) -> &str;

    /// Whether `r` is an outcome of making a broker proxy from a manifest with
    /// the view `manifest`. Factories that say nothing of it leave it `true`.
    open spec fn makes_broker_proxy(&self, manifest: JsonView, r: Result<Self::BrokerProxy, JuizError>) -> bool {
        true
    }

    fn create_broker_proxy(&self, manifest: Value) -> (r: Result<Self::BrokerProxy, JuizError>)
        ensures
            self.makes_broker_proxy(manifest@, r),
    ;
}

/// A broker factory and a broker proxy factory of the same type, with the
/// plugin that provided them.
pub struct BrokerFactoriesWrapper<BF, BPF> {
    pub typename: String,
    pub plugin: Option<JuizObjectPlugin>,
    pub broker_factory: BF,
    pub broker_proxy_factory: BPF,
}

impl<BF: BrokerFactory, BPF: BrokerProxyFactory> BrokerFactoriesWrapper<BF, BPF> {
    /// Pairs the two factories, asking each for its type. Fails with
    /// `BrokerFactoryAndBrokerProxyFactoryWithDifferentTypeIsRegisteredError`
    /// where the types they give differ (see `from_typenames`).
    pub fn new(plugin: Option<JuizObjectPlugin>, broker_factory: BF, broker_proxy_factory: BPF) -> (r: Result<
        Self,
        JuizError,
    >)
        ensures
            r matches Ok(w) ==> {
                &&& w.plugin == plugin
                &&& w.broker_factory == broker_factory
                &&& w.broker_proxy_factory == broker_proxy_factory
            },
            r matches Err(e) ==> (e is BrokerFactoryAndBrokerProxyFactoryWithDifferentTypeIsRegisteredError),
    {
        let type_name_bf = string_of(broker_factory.typename());
        let type_name_bpf = string_of(broker_proxy_factory.typename());
        Self::from_typenames(plugin, broker_factory, broker_proxy_factory, type_name_bf, type_name_bpf)
    }

    /// Pairs the two factories, given the types they gave. Fails with
    /// `BrokerFactoryAndBrokerProxyFactoryWithDifferentTypeIsRegisteredError`
    /// exactly where the types differ.
    pub fn from_typenames(
        plugin: Option<JuizObjectPlugin>,
        broker_factory: BF,
        broker_proxy_factory: BPF,
        type_name_bf: String,
        type_name_bpf: String,
    ) -> (r: Result<Self, JuizError>)
        ensures
            r is Ok <==> type_name_bf@ == type_name_bpf@,
            r matches Ok(w) ==> {
                &&& w.typename@ == type_name_bpf@
                &&& w.plugin == plugin
                &&& w.broker_factory == broker_factory
                &&& w.broker_proxy_factory == broker_proxy_factory
            },
            r matches Err(e) ==> (e == JuizError::BrokerFactoryAndBrokerProxyFactoryWithDifferentTypeIsRegisteredError {
                type_name_bf,
                type_name_bpf,
            }),
    {
        if type_name_bf != type_name_bpf {
            return Err(
                JuizError::BrokerFactoryAndBrokerProxyFactoryWithDifferentTypeIsRegisteredError {
                    type_name_bf,
                    type_name_bpf,
                },
            );
        }
        Ok(BrokerFactoriesWrapper { typename: type_name_bpf, plugin, broker_factory, broker_proxy_factory })
    }

    /// The profile of the broker factory: what its `profile_full` gives. The
    /// contract says no more than the factory's `gives_profile`, which is
    /// `true`, and so says nothing, unless the factory's impl overrides it.
    pub fn profile_full(&self) -> (r: Result<Value, JuizError>)
        ensures
            self.broker_factory.gives_profile(r),
    {
        self.broker_factory.profile_full()
    }

    /// The type of both factories.
    pub fn typename(&self) -> (r: &str)
        ensures
            r@ == self.typename@,
    {
        self.typename.as_str()
    }

    /// A broker made by the broker factory from a copy of the manifest. The
    /// contract says no more than the factory's `makes_broker`, which is
    /// `true`, and so says nothing, unless the factory's impl overrides it.
    pub fn create_broker(&self, manifest: &Value) -> (r: Result<BF::Broker, JuizError>)
        ensures
            self.broker_factory.makes_broker(manifest@, r),
    {
        self.broker_factory.create_broker(manifest.duplicate())
    }

    /// A broker proxy made by the broker proxy factory from a copy of the
    /// manifest. The contract says no more than the factory's
    /// `makes_broker_proxy`, which is `true`, and so says nothing, unless the
    /// factory's impl overrides it.
    pub fn create_broker_proxy(&self, manifest: &Value) -> (r: Result<BPF::BrokerProxy, JuizError>)
        ensures
            self.broker_proxy_factory.makes_broker_proxy(manifest@, r),
    {
        self.broker_proxy_factory.create_broker_proxy(manifest.duplicate())
    }
}

} // verus!
