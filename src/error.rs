use vstd::prelude::*;

verus! {

/// A field of a command.
#[derive(Debug, Clone, Copy, PartialEq, Eq, Structural)]
pub enum Field {
    Table,
    Key,
    Value,
}

/// What can go wrong while a command is served.
#[derive(Debug, PartialEq)]
pub enum KvError {
    /// The command lacks a field that its kind needs, or holds it empty.
    MalformedRequest(Field),
    /// The storage engine reported a fault, described by the message.
    EngineFailure(String),
}

/// The text that describes an error to a client.
pub open spec fn message_of(e: KvError) -> Seq<char> {
    match e {
        KvError::MalformedRequest(Field::Table) => "malformed request: no table name"@,
        KvError::MalformedRequest(Field::Key) => "malformed request: no key"@,
        KvError::MalformedRequest(Field::Value) => "malformed request: no value"@,
        KvError::EngineFailure(m) => m@,
    }
}

impl KvError {
    /// A readable description of the error.
    pub fn message(&self) -> (r: String)
        ensures
            r@ == message_of(*self),
    {
        match self {
            KvError::MalformedRequest(Field::Table) => "malformed request: no table name".to_owned(),
            KvError::MalformedRequest(Field::Key) => "malformed request: no key".to_owned(),
            KvError::MalformedRequest(Field::Value) => "malformed request: no value".to_owned(),
            KvError::EngineFailure(m) => m.clone(),
        }
    }
}

} // verus!
