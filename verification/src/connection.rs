use vstd::prelude::*;
use crate::error::{JuizError, is_key_error};
use crate::identifier::Identifier;
use crate::object::{JuizObject, JuizObjectClass, JuizObjectCoreHolder, ObjectCore, core_object};
use crate::strings::{str_eq, string_of};
use crate::value::{JsonView, Value, entries_push, json_get, json_str, obj_get_str, string_value};

verus! {

/// How a connection moves values: the destination pulls them, or the source
/// pushes them.
#[derive(PartialEq, Eq, Structural, Clone, Copy, Debug)]
pub enum ConnectionType {
    Pull,
    Push,
}

pub open spec fn connection_type_str(t: ConnectionType) -> Seq<char> {
    match t {
        ConnectionType::Pull => "Pull"@,
        ConnectionType::Push => "Push"@,
    }
}

impl ConnectionType {
    /// The name of the connection type: `Pull` or `Push`.
    pub fn to_string(&self) -> (r: String)
        ensures
            r@ == connection_type_str(*self),
    {
        match self {
            ConnectionType::Pull => string_of("Pull"),
            ConnectionType::Push => string_of("Push"),
        }
    }
}

/// The connection type that a manifest's text names: `pull` or `push`.
pub open spec fn connection_type_named(s: Seq<char>) -> Option<ConnectionType> {
    if s == "pull"@ {
        Some(ConnectionType::Pull)
    } else if s == "push"@ {
        Some(ConnectionType::Push)
    } else {
        None
    }
}

/// The connection type given by the result of reading a manifest's `type`:
/// `Pull` where there was none, else the type that the text names. Fails with
/// `ConnectionTypeError` where the text names no type.
pub fn connection_type_from(typ_str_result: Result<&str, JuizError>) -> (r: Result<ConnectionType, JuizError>)
    ensures
        match typ_str_result {
            Err(_) => r == Ok::<ConnectionType, JuizError>(ConnectionType::Pull),
            Ok(s) => match connection_type_named(s@) {
                Some(t) => r == Ok::<ConnectionType, JuizError>(t),
                None => r matches Err(JuizError::ConnectionTypeError { type_string: ts }) && ts@ == s@,
            },
        },
{
    match typ_str_result {
        Err(_) => Ok(ConnectionType::Pull),
        Ok(typ_str) => {
            if str_eq(typ_str, "pull") {
                Ok(ConnectionType::Pull)
            } else if str_eq(typ_str, "push") {
                Ok(ConnectionType::Push)
            } else {
                Err(JuizError::ConnectionTypeError { type_string: string_of(typ_str) })
            }
        },
    }
}

/// The connection type that a manifest gives: `Pull` where it has no string
/// `type`, else the type its `type` names.
pub open spec fn manifest_connection_type(m: JsonView) -> Option<ConnectionType> {
    match json_str(m, "type"@) {
        None => Some(ConnectionType::Pull),
        Some(s) => connection_type_named(s),
    }
}

/// The state that a connection carries.
#[derive(Debug, PartialEq)]
pub struct ConnectionCore {
    pub core: ObjectCore,
    pub manifest: Value,
    pub connection_type: ConnectionType,
    pub source_process_identifier: Identifier,
    pub destination_process_identifier: Identifier,
    pub arg_name: String,
}

/// The profile of a connection.
pub open spec fn connection_profile(c: ConnectionCore) -> JsonView {
    JsonView::Object(
        Map::empty().insert("identifier"@, JsonView::Str(c.core.identifier@)).insert(
            "connection_type"@,
            JsonView::Str(connection_type_str(c.connection_type)),
        ).insert("arg_name"@, JsonView::Str(c.arg_name@)).insert(
            "destination_identifier"@,
            JsonView::Str(c.destination_process_identifier@),
        ).insert("source_process_identifier"@, JsonView::Str(c.source_process_identifier@)),
    )
}

/// A connection manifest from which a connection can be made: its `type`
/// names a type (or is absent) and its `id` is a string.
pub open spec fn connection_manifest_ok(m: JsonView) -> bool {
    manifest_connection_type(m) is Some && json_str(m, "id"@) is Some
}

/// The connection of class `class` that the manifest `m` describes, from the
/// process `source` to the argument `arg` of the process `destination`.
pub open spec fn connection_from_manifest(
    c: ConnectionCore,
    class: &'static str,
    source: Seq<char>,
    destination: Seq<char>,
    arg: Seq<char>,
    m: JsonView,
) -> bool {
    &&& core_object(c.core, JuizObjectClass::Connection(class), class@, json_str(m, "id"@)->0)
    &&& c.manifest@ == m
    &&& Some(c.connection_type) == manifest_connection_type(m)
    &&& c.source_process_identifier@ == source
    &&& c.destination_process_identifier@ == destination
    &&& c.arg_name@ == arg
}

/// The error of a connection manifest that is not `connection_manifest_ok`:
/// a `type` that names no type first, then the error of reading `id`.
pub open spec fn connection_manifest_error(e: JuizError, m: JsonView) -> bool {
    if manifest_connection_type(m) is None {
        e matches JuizError::ConnectionTypeError { type_string: ts } && ts@ == json_str(m, "type"@)->0
    } else {
        is_key_error(e, json_get(m, "id"@) is None, "id"@)
    }
}

/// The profile of a connection names its own type: `Push` for a push
/// connection and `Pull` for a pull one, the text that
/// `ConnectionType::to_string` gives; and it carries the connection's
/// identifier, argument and both ends.
pub proof fn law_connection_profile_members(c: ConnectionCore)
    ensures
        json_get(connection_profile(c), "connection_type"@) == Some(
            JsonView::Str(
                match c.connection_type {
                    ConnectionType::Push => "Push"@,
                    ConnectionType::Pull => "Pull"@,
                },
            ),
        ),
        json_get(connection_profile(c), "identifier"@) == Some(JsonView::Str(c.core.identifier@)),
        json_get(connection_profile(c), "arg_name"@) == Some(JsonView::Str(c.arg_name@)),
        json_get(connection_profile(c), "destination_identifier"@) == Some(
            JsonView::Str(c.destination_process_identifier@),
        ),
        json_get(connection_profile(c), "source_process_identifier"@) == Some(
            JsonView::Str(c.source_process_identifier@),
        ),
        connection_type_str(ConnectionType::Push) == "Push"@,
        connection_type_str(ConnectionType::Pull) == "Pull"@,
        "Push"@ != "Pull"@,
{
    reveal_strlit("connection_type");
    reveal_strlit("identifier");
    reveal_strlit("arg_name");
    reveal_strlit("destination_identifier");
    reveal_strlit("source_process_identifier");
    reveal_strlit("Push");
    reveal_strlit("Pull");
    assert("connection_type"@.len() == 15 && "identifier"@.len() == 10 && "arg_name"@.len() == 8);
    assert("destination_identifier"@.len() == 22 && "source_process_identifier"@.len() == 25);
    assert("Push"@[2] != "Pull"@[2]);
}

impl ConnectionCore {
    /// A connection of the class `connection_impl_class_name` from the process
    /// `source_process_identifier` to the argument `arg_name` of the process
    /// `destination_process_identifier`. Its type is what the manifest's `type`
    /// names (`Pull` where there is none) and its name the manifest's `id`.
    /// Fails with `ConnectionTypeError` where `type` names no type, else with
    /// the error of reading `id` where that is not a string member.
    pub fn new(
        connection_impl_class_name: &'static str,
        source_process_identifier: Identifier,
        destination_process_identifier: Identifier,
        arg_name: String,
        connection_manifest: &Value,
    ) -> (r: Result<Self, JuizError>)
        ensures
            r is Ok <==> connection_manifest_ok(connection_manifest@),
            r matches Ok(c) ==> connection_from_manifest(
                c,
                connection_impl_class_name,
                source_process_identifier@,
                destination_process_identifier@,
                arg_name@,
                connection_manifest@,
            ),
            r matches Err(e) ==> connection_manifest_error(e, connection_manifest@),
    {
        let manif = connection_manifest.duplicate();
        let connection_type = match connection_type_from(obj_get_str(&manif, "type")) {
            Ok(t) => t,
            Err(e) => return Err(e),
        };
        let connection_id = match obj_get_str(&manif, "id") {
            Ok(s) => s,
            Err(e) => return Err(e),
        };
        let core = ObjectCore::create(
            JuizObjectClass::Connection(connection_impl_class_name),
            connection_impl_class_name,
            connection_id,
        );
        Ok(ConnectionCore {
            core,
            source_process_identifier,
            destination_process_identifier,
            manifest: manif,
            arg_name,
            connection_type,
        })
    }

    pub fn object_core(&self) -> (r: &ObjectCore)
        ensures
            *r == self.core,
    {
        &self.core
    }

    pub fn destination_identifier(&self) -> (r: &Identifier)
        ensures
            *r == self.destination_process_identifier,
    {
        &self.destination_process_identifier
    }

    pub fn source_identifier(&self) -> (r: &Identifier)
        ensures
            *r == self.source_process_identifier,
    {
        &self.source_process_identifier
    }

    pub fn arg_name(&self) -> (r: &String)
        ensures
            *r == self.arg_name,
    {
        &self.arg_name
    }

    pub fn connection_type(&self) -> (r: &ConnectionType)
        ensures
            *r == self.connection_type,
    {
        &self.connection_type
    }

    /// The profile of the connection: its identifier, type, argument, and the
    /// identifiers of both ends.
    pub fn profile_full(&self) -> (r: Result<Value, JuizError>)
        ensures
            r matches Ok(v) && v@ == connection_profile(*self),
    {
        let mut entries: Vec<(String, Value)> = Vec::new();
        entries_push(&mut entries, "identifier", string_value(self.core.identifier.as_str()));
        let t = self.connection_type.to_string();
        entries_push(&mut entries, "connection_type", string_value(t.as_str()));
        entries_push(&mut entries, "arg_name", string_value(self.arg_name.as_str()));
        entries_push(
            &mut entries,
            "destination_identifier",
            string_value(self.destination_process_identifier.as_str()),
        );
        entries_push(
            &mut entries,
            "source_process_identifier",
            string_value(self.source_process_identifier.as_str()),
        );
        Ok(Value::Object(entries))
    }
}

impl Clone for ConnectionCore {
    fn clone(&self) -> (r: Self)
        ensures
            r.core == self.core,
            r.manifest@ == self.manifest@,
            r.connection_type == self.connection_type,
            r.source_process_identifier == self.source_process_identifier,
            r.destination_process_identifier == self.destination_process_identifier,
            r.arg_name == self.arg_name,
    {
        ConnectionCore {
            core: self.core.clone(),
            manifest: self.manifest.duplicate(),
            connection_type: self.connection_type,
            source_process_identifier: self.source_process_identifier.clone(),
            destination_process_identifier: self.destination_process_identifier.clone(),
            arg_name: self.arg_name.clone(),
        }
    }
}

/// A connection between two processes: an object that carries a connection core.
pub trait Connection: JuizObject {
    spec fn spec_connection_core(&self) -> ConnectionCore;

    fn connection_core(&self) -> (r: &ConnectionCore)
        ensures
            *r == self.spec_connection_core(),
    ;

    /// The argument of the destination process that the connection feeds.
    fn arg_name(&self) -> (r: &String)
        ensures
            *r == self.spec_connection_core().arg_name,
    {
        self.connection_core().arg_name()
    }

    /// How the connection moves values.
    fn connection_type(&self) -> (r: &ConnectionType)
        ensures
            *r == self.spec_connection_core().connection_type,
    {
        self.connection_core().connection_type()
    }
}

impl JuizObjectCoreHolder for ConnectionCore {
    open spec fn spec_core(&self) -> ObjectCore {
        self.core
    }

    fn object_core(&self) -> (r: &ObjectCore) {
        &self.core
    }
}

impl JuizObject for ConnectionCore {

}

impl Connection for ConnectionCore {
    open spec fn spec_connection_core(&self) -> ConnectionCore {
        *self
    }

    fn connection_core(&self) -> (r: &ConnectionCore) {
        self
    }
}

} // verus!
