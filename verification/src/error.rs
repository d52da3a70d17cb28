use vstd::prelude::*;

verus! {

/// The errors that the library's operations report.
#[derive(Debug, PartialEq)]
pub enum JuizError {
    /// An object has no member under the key.
    ValueWithKeyNotFoundError { key: String },
    /// The member under the key is not a string.
    ValueIsNotStringError { key: String },
    /// The member under the key is not an object.
    ValueIsNotObjectError { key: String },
    /// A connection manifest names an unknown connection type.
    ConnectionTypeError { type_string: String },
    /// A broker factory and a broker proxy factory of different types were paired.
    BrokerFactoryAndBrokerProxyFactoryWithDifferentTypeIsRegisteredError {
        type_name_bf: String,
        type_name_bpf: String,
    },
    /// A CRUD call lacks a parameter that its function needs.
    CRUDBrokerCanNotParameterFunctionError { key_name: String },
    /// The broker holds no process with the identifier.
    ProcessCanNotFoundError,
    /// A lookup by name found nothing.
    CanNotFindError { target: String },
    /// A setting holds a value that the library does not know.
    InvalidSettingError { message: String },
    /// A text is not an identifier of the form `broker_type://broker/class/object::type`.
    IdentifierParseError { identifier: String },
    /// The identifier pattern was refused by the regular expression engine.
    RegexPatternError,
}

/// The error that names a key: which of the key-related variants it is, and the key.
pub open spec fn is_key_error(e: JuizError, not_found: bool, key: Seq<char>) -> bool {
    if not_found {
        e matches JuizError::ValueWithKeyNotFoundError { key: k } && k@ == key
    } else {
        e matches JuizError::ValueIsNotStringError { key: k } && k@ == key
    }
}

} // verus!
