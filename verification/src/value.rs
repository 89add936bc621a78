//! Values: as the engine holds them, and as the host sees them.

use vstd::prelude::*;

verus! {

/// An address in the engine's memory; zero is the null pointer.
pub type Pointer = u64;

pub const TAG_STRING: i64 = -7;

pub const TAG_FUNCTION_BYTECODE: i64 = -2;

pub const TAG_OBJECT: i64 = -1;

pub const TAG_INT: i64 = 0;

pub const TAG_BOOL: i64 = 1;

pub const TAG_NULL: i64 = 2;

pub const TAG_UNDEFINED: i64 = 3;

pub const TAG_EXCEPTION: i64 = 6;

pub const TAG_FLOAT64: i64 = 7;

/// A value of the engine: its tag, and the word that goes with it (a number, or the address of
/// what the engine allocated for the value).
#[derive(Debug, Clone, Copy, PartialEq, Eq, Structural)]
pub struct RawValue {
    pub tag: i64,
    pub payload: u64,
}

impl RawValue {
    /// The value that tells the engine that an exception is pending.
    pub fn exception() -> (value: RawValue)
        ensures
            value == (RawValue { tag: TAG_EXCEPTION, payload: 0 }),
    {
        RawValue { tag: TAG_EXCEPTION, payload: 0 }
    }

    /// Whether this value tells that an exception is pending.
    pub fn is_exception(&self) -> (yes: bool)
        ensures
            yes == (self.tag == TAG_EXCEPTION),
    {
        self.tag == TAG_EXCEPTION
    }

    /// Whether this is an object.
    pub fn is_object(&self) -> (yes: bool)
        ensures
            yes == (self.tag == TAG_OBJECT),
    {
        self.tag == TAG_OBJECT
    }
}

/// Whether the engine counts the references to `value`.
pub open spec fn is_counted(value: RawValue) -> bool {
    value.tag < 0
}

/// A value as the host sees it. Text is of the type `S`: `String`, or a sequence of characters in
/// contracts. Only booleans and strings are ever read; a value of any other kind travels as
/// `Other`, by the number under which the conversion layer keeps it.
#[derive(Debug, PartialEq, Eq)]
pub enum JsValueOf<S> {
    Undefined,
    Null,
    Bool(bool),
    Int(i32),
    String(S),
    Other(u64),
}

/// A host value.
pub type JsValue = JsValueOf<String>;

/// A host value in contracts.
pub type SpecJsValue = JsValueOf<Seq<char>>;

impl View for JsValueOf<String> {
    type V = SpecJsValue;

    open spec fn view(&self) -> SpecJsValue {
        match *self {
            JsValueOf::Undefined => JsValueOf::Undefined,
            JsValueOf::Null => JsValueOf::Null,
            JsValueOf::Bool(b) => JsValueOf::Bool(b),
            JsValueOf::Int(i) => JsValueOf::Int(i),
            JsValueOf::String(s) => JsValueOf::String(s@),
            JsValueOf::Other(n) => JsValueOf::Other(n),
        }
    }
}

/// A host resource, by the number under which the host keeps it.
#[derive(Debug, Clone, Copy, PartialEq, Eq, Structural)]
pub struct ResourceValue {
    pub handle: u64,
}

/// What a resource object of the engine carries.
#[derive(Debug, Clone, Copy, PartialEq, Eq, Structural)]
pub struct ResourceObject {
    pub data: ResourceValue,
}

/// The number of an engine class; zero until the engine has given one out.
#[derive(Debug, PartialEq, Eq)]
pub struct ClassId {
    id: u32,
}

impl ClassId {
    pub closed spec fn spec_id(&self) -> u32 {
        self.id
    }

    /// A class that has no number yet.
    pub fn new() -> (class: ClassId)
        ensures
            class.spec_id() == 0,
    {
        ClassId { id: 0 }
    }

    /// The number of the class.
    pub fn id(&self) -> (id: u32)
        ensures
            id == self.spec_id(),
    {
        self.id
    }
}

} // verus!
