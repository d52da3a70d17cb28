use vstd::prelude::*;
use crate::error::JuizError;
use crate::identifier::{Identifier, identifier_new, spec_identifier, KEY_TYPE_NAME, key_type_name};
use crate::strings::string_of;
use crate::value::{JsonView, Value, entries_push, string_value};

verus! {

/// The class of an object of the system; the text is the name of the class
/// that implements it.
#[derive(Debug, PartialEq, Clone, Copy)]
pub enum JuizObjectClass {
    Process(&'static str),
    Container(&'static str),
    ContainerProcess(&'static str),
    ProcessFactory(&'static str),
    ContainerFactory(&'static str),
    ContainerProcessFactory(&'static str),
    Broker(&'static str),
    BrokerFactory(&'static str),
    BrokerProxy(&'static str),
    BrokerProxyFactory(&'static str),
    System(&'static str),
    Connection(&'static str),
}

/// The name of a class; a connection's class has no name of its own.
pub open spec fn class_str(c: JuizObjectClass) -> Seq<char> {
    match c {
        JuizObjectClass::Process(_) => "Process"@,
        JuizObjectClass::ProcessFactory(_) => "ProcessFactory"@,
        JuizObjectClass::Container(_) => "Container"@,
        JuizObjectClass::ContainerFactory(_) => "ContainerFactory"@,
        JuizObjectClass::ContainerProcess(_) => "ContainerProcess"@,
        JuizObjectClass::ContainerProcessFactory(_) => "ContainerProcessFactory"@,
        JuizObjectClass::Broker(_) => "Broker"@,
        JuizObjectClass::BrokerFactory(_) => "BrokerFactory"@,
        JuizObjectClass::BrokerProxy(_) => "BrokerProxy"@,
        JuizObjectClass::BrokerProxyFactory(_) => "BrokerProxyFactory"@,
        JuizObjectClass::System(_) => "System"@,
        JuizObjectClass::Connection(_) => "unknown"@,
    }
}

impl JuizObjectClass {
    /// The name of the class.
    pub fn as_str(&self) -> (r: &'static str)
        ensures
            r@ == class_str(*self),
    {
        match *self {
            JuizObjectClass::Process(_) => "Process",
            JuizObjectClass::ProcessFactory(_) => "ProcessFactory",
            JuizObjectClass::Container(_) => "Container",
            JuizObjectClass::ContainerFactory(_) => "ContainerFactory",
            JuizObjectClass::ContainerProcess(_) => "ContainerProcess",
            JuizObjectClass::ContainerProcessFactory(_) => "ContainerProcessFactory",
            JuizObjectClass::Broker(_) => "Broker",
            JuizObjectClass::BrokerFactory(_) => "BrokerFactory",
            JuizObjectClass::BrokerProxy(_) => "BrokerProxy",
            JuizObjectClass::BrokerProxyFactory(_) => "BrokerProxyFactory",
            JuizObjectClass::System(_) => "System",
            _ => "unknown",
        }
    }
}

/// What every object of the system carries: its identifier, class, type name,
/// name, and the broker that holds it.
#[derive(Debug, PartialEq)]
pub struct ObjectCore {
    pub identifier: Identifier,
    pub class_name: JuizObjectClass,
    pub typename: String,
    pub name: String,
    pub broker_type_name: String,
    pub broker_name: String,
}

/// The profile of an object: its identifier, class name, type name and name.
pub open spec fn object_profile(
    identifier: Seq<char>,
    class_name: Seq<char>,
    typename: Seq<char>,
    name: Seq<char>,
) -> JsonView {
    JsonView::Object(
        Map::empty().insert("identifier"@, JsonView::Str(identifier)).insert(
            "class_name"@,
            JsonView::Str(class_name),
        ).insert(key_type_name(), JsonView::Str(typename)).insert("name"@, JsonView::Str(name)),
    )
}

/// The profile object built from the four texts.
pub fn profile_value(identifier: &str, class_name: &str, typename: &str, name: &str) -> (r: Value)
    ensures
        r@ == object_profile(identifier@, class_name@, typename@, name@),
{
    let mut entries: Vec<(String, Value)> = Vec::new();
    entries_push(&mut entries, "identifier", string_value(identifier));
    entries_push(&mut entries, "class_name", string_value(class_name));
    entries_push(&mut entries, KEY_TYPE_NAME, string_value(typename));
    entries_push(&mut entries, "name", string_value(name));
    Value::Object(entries)
}

/// An object core on the core broker (`core://core/...`) with the given class,
/// type name and name.
pub open spec fn core_object(c: ObjectCore, class_name: JuizObjectClass, typename: Seq<char>, object_name: Seq<char>) -> bool {
    &&& c.identifier@ == spec_identifier("core"@, "core"@, class_str(class_name), typename, object_name)
    &&& c.class_name == class_name
    &&& c.typename@ == typename
    &&& c.name@ == object_name
    &&& c.broker_name@ == "core"@
    &&& c.broker_type_name@ == "core"@
}

impl ObjectCore {
    /// The core of an object on the core broker.
    pub fn create(class_name: JuizObjectClass, typename: &str, object_name: &str) -> (r: ObjectCore)
        ensures
            core_object(r, class_name, typename@, object_name@),
    {
        let identifier = identifier_new("core", "core", class_name.as_str(), typename, object_name);
        ObjectCore {
            identifier,
            class_name,
            typename: string_of(typename),
            name: string_of(object_name),
            broker_name: string_of("core"),
            broker_type_name: string_of("core"),
        }
    }

    /// The core of a factory on the core broker: its name is its type name.
    pub fn create_factory(class_name: JuizObjectClass, typename: &str) -> (r: ObjectCore)
        ensures
            core_object(r, class_name, typename@, typename@),
    {
        Self::create(class_name, typename, typename)
    }

    /// The profile of the object: identifier, class name, type name and name.
    pub fn profile_full(&self) -> (r: Result<Value, JuizError>)
        ensures
            r matches Ok(v) && v@ == object_profile(
                self.identifier@,
                class_str(self.class_name),
                self.typename@,
                self.name@,
            ),
    {
        Ok(profile_value(self.identifier.as_str(), self.class_name.as_str(), self.typename.as_str(), self.name.as_str()))
    }
}

impl Clone for ObjectCore {
    fn clone(&self) -> (r: Self)
        ensures
            r == *self,
    {
        ObjectCore {
            identifier: self.identifier.clone(),
            class_name: self.class_name,
            typename: self.typename.clone(),
            name: self.name.clone(),
            broker_type_name: self.broker_type_name.clone(),
            broker_name: self.broker_name.clone(),
        }
    }
}

/// An object that holds an object core.
pub trait JuizObjectCoreHolder {
    spec fn spec_core(&self) -> ObjectCore;

    fn object_core(&self) -> (r: &ObjectCore)
        ensures
            *r == self.spec_core(),
    ;
}

/// An object of the system, seen through its core.
pub trait JuizObject: JuizObjectCoreHolder {
    fn identifier(&self) -> (r: &Identifier)
        ensures
            *r == self.spec_core().identifier,
    {
        &self.object_core().identifier
    }

    fn profile_full(&self) -> (r: Result<Value, JuizError>)
        default_ensures
            r matches Ok(v) && v@ == object_profile(
                self.spec_core().identifier@,
                class_str(self.spec_core().class_name),
                self.spec_core().typename@,
                self.spec_core().name@,
            ),
    {
        self.object_core().profile_full()
    }

    fn class_name(&self) -> (r: &JuizObjectClass)
        ensures
            *r == self.spec_core().class_name,
    {
        &self.object_core().class_name
    }

    fn typename(&self) -> (r: &str)
        ensures
            r@ == self.spec_core().typename@,
    {
        self.object_core().typename.as_str()
    }

    fn name(&self) -> (r: &str)
        ensures
            r@ == self.spec_core().name@,
    {
        self.object_core().name.as_str()
    }

    fn broker_type(&self) -> (r: &str)
        ensures
            r@ == self.spec_core().broker_type_name@,
    {
        self.object_core().broker_type_name.as_str()
    }

    fn broker_name(&self) -> (r: &str)
        ensures
            r@ == self.spec_core().broker_name@,
    {
        self.object_core().broker_name.as_str()
    }
}

proof fn lemma_class_str_plain(c: JuizObjectClass)
    ensures
        crate::identifier::plain_part(class_str(c)),
{
    reveal_strlit("Process");
    reveal_strlit("ProcessFactory");
    reveal_strlit("Container");
    reveal_strlit("ContainerFactory");
    reveal_strlit("ContainerProcess");
    reveal_strlit("ContainerProcessFactory");
    reveal_strlit("Broker");
    reveal_strlit("BrokerFactory");
    reveal_strlit("BrokerProxy");
    reveal_strlit("BrokerProxyFactory");
    reveal_strlit("System");
    reveal_strlit("unknown");
}

/// The identifier of an object on the core broker splits back into the core
/// broker, the object's class, its name and its type name, where the name and
/// the type name hold no `:`, `/` or line feed and are not empty.
pub proof fn law_core_identifier_splits(c: ObjectCore, class_name: JuizObjectClass, typename: Seq<char>, object_name: Seq<char>, parts: Seq<Seq<char>>)
    requires
        core_object(c, class_name, typename, object_name),
        crate::identifier::plain_part(typename),
        crate::identifier::plain_part(object_name),
        crate::identifier::identifier_split(c.identifier@, parts),
    ensures
        parts == seq!["core"@, "core"@, class_str(class_name), object_name, typename],
{
    reveal_strlit("core");
    lemma_class_str_plain(class_name);
    crate::identifier::law_build_then_split("core"@, "core"@, class_str(class_name), typename, object_name, parts);
}

} // verus!
