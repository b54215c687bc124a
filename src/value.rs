use vstd::prelude::*;

verus! {

/// A value stored against a key.
#[derive(Debug, Clone, PartialEq)]
pub enum Value {
    Str(String),
    Binary(Vec<u8>),
    Integer(i64),
    Bool(bool),
}

/// The mathematical content of a [`Value`].
pub enum ValueView {
    Str(Seq<char>),
    Binary(Seq<u8>),
    Integer(i64),
    Bool(bool),
}

impl View for Value {
    type V = ValueView;

    open spec fn view(&self) -> ValueView {
        match self {
            Value::Str(s) => ValueView::Str(s@),
            Value::Binary(b) => ValueView::Binary(b@),
            Value::Integer(i) => ValueView::Integer(*i),
            Value::Bool(b) => ValueView::Bool(*b),
        }
    }
}

/// A key together with the value stored against it.
#[derive(Debug, PartialEq)]
pub struct Kvpair {
    pub key: String,
    pub value: Value,
}

impl View for Kvpair {
    type V = (Seq<char>, ValueView);

    open spec fn view(&self) -> (Seq<char>, ValueView) {
        (self.key@, self.value@)
    }
}

impl Kvpair {
    pub fn new(key: String, value: Value) -> (r: Kvpair)
        ensures
            r.key == key,
            r.value == value,
    {
        Kvpair { key, value }
    }
}

impl From<(String, Value)> for Kvpair {
    fn from(data: (String, Value)) -> (r: Kvpair) {
        Kvpair { key: data.0, value: data.1 }
    }
}

impl vstd::std_specs::convert::FromSpecImpl<(String, Value)> for Kvpair {
    open spec fn obeys_from_spec() -> bool {
        true
    }

    open spec fn from_spec(data: (String, Value)) -> Kvpair {
        Kvpair { key: data.0, value: data.1 }
    }
}

} // verus!
