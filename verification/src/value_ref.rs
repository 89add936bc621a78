//! References to engine values.

use vstd::prelude::*;
use vstd::string::*;

use crate::call::{none, one, Asked, Call, Finished, Next, SpecCall, Step};
use crate::context::ContextWrapper;
use crate::error::{
    exception_text, seen_value, ExecutionError, SpecExecutionError, SpecValueError, ValueError,
};
use crate::exception::seen_text;
use crate::value::{
    is_counted, JsValue, JsValueOf, Pointer, RawValue, TAG_BOOL, TAG_EXCEPTION, TAG_FLOAT64,
    TAG_FUNCTION_BYTECODE, TAG_INT, TAG_NULL, TAG_OBJECT, TAG_STRING, TAG_UNDEFINED,
};

verus! {

/// A value of the engine, and one reference to it, which `release` gives back.
#[derive(Debug, PartialEq, Eq, Structural)]
pub struct OwnedValueRef {
    pub context: Pointer,
    pub value: RawValue,
}

/// The value is being turned into a string, or decoded.
#[derive(Debug, PartialEq, Eq)]
pub enum ToStringPending {
    Convert(ConvertPending),
    Decode(DecodePending),
}

/// The engine has been asked for the value as a string.
#[derive(Debug, PartialEq, Eq, Structural)]
pub struct ConvertPending {
    pub context: Pointer,
}

/// A string value has been asked to be decoded; `temporary` is one that is to be given back.
#[derive(Debug, PartialEq, Eq, Structural)]
pub struct DecodePending {
    pub context: Pointer,
    pub temporary: Option<RawValue>,
}

/// A value has been asked to be decoded, for a boolean.
#[derive(Debug, PartialEq, Eq, Structural)]
pub struct BoolPending;

/// The reference count has been asked for.
#[derive(Debug, PartialEq, Eq, Structural)]
pub struct RefCountPending;

/// How a value with that tag is shown.
pub open spec fn tag_label(tag: i64) -> Seq<char> {
    if tag == TAG_EXCEPTION {
        "Exception(?)"@
    } else if tag == TAG_NULL {
        "NULL"@
    } else if tag == TAG_UNDEFINED {
        "UNDEFINED"@
    } else if tag == TAG_BOOL {
        "Bool(?)"@
    } else if tag == TAG_INT {
        "Int(?)"@
    } else if tag == TAG_FLOAT64 {
        "Float(?)"@
    } else if tag == TAG_STRING {
        "String(?)"@
    } else if tag == TAG_OBJECT {
        "Object(?)"@
    } else if tag == TAG_FUNCTION_BYTECODE {
        "Bytecode(?)"@
    } else {
        "?"@
    }
}

impl OwnedValueRef {
    /// Takes over a reference to `value`.
    pub fn new(context: &ContextWrapper, value: RawValue) -> (owned: OwnedValueRef)
        ensures
            owned == (OwnedValueRef { context: context.context, value }),
    {
        OwnedValueRef { context: context.context, value }
    }

    /// Makes a reference of its own to `value`.
    pub fn new_dup(context: &ContextWrapper, value: RawValue) -> (finished: Finished<OwnedValueRef>)
        ensures
            finished.issued() == seq![SpecCall::DupValue { context: context.context, value }],
            finished.result == (OwnedValueRef { context: context.context, value }),
    {
        let owned: OwnedValueRef = OwnedValueRef::new(context, value);
        Finished {
            calls: one(Call::DupValue { context: owned.context, value: owned.value }),
            result: owned,
        }
    }

    /// A second reference to the same value.
    pub fn duplicate(&self) -> (finished: Finished<OwnedValueRef>)
        ensures
            finished.issued() == seq![
                SpecCall::DupValue { context: self.context, value: self.value },
            ],
            finished.result == *self,
    {
        Finished {
            calls: one(Call::DupValue { context: self.context, value: self.value }),
            result: OwnedValueRef { context: self.context, value: self.value },
        }
    }

    /// Gives the reference back.
    pub fn release(self) -> (call: Call)
        ensures
            call@ == (SpecCall::FreeValue { context: self.context, value: self.value }),
    {
        Call::FreeValue { context: self.context, value: self.value }
    }

    /// The value; the reference to it is now the caller's.
    pub fn into_inner(self) -> (value: RawValue)
        ensures
            value == self.value,
    {
        self.value
    }

    /// The value, without a reference.
    pub fn as_inner(&self) -> (value: &RawValue)
        ensures
            *value == self.value,
    {
        &self.value
    }

    /// The value, with a reference for a new owner.
    pub fn as_inner_dup(&self) -> (finished: Finished<RawValue>)
        ensures
            finished.issued() == seq![
                SpecCall::DupValue { context: self.context, value: self.value },
            ],
            finished.result == self.value,
    {
        Finished {
            calls: one(Call::DupValue { context: self.context, value: self.value }),
            result: self.value,
        }
    }

    pub fn is_null(&self) -> (yes: bool)
        ensures
            yes == (self.value.tag == TAG_NULL),
    {
        self.value.tag == TAG_NULL
    }

    pub fn is_bool(&self) -> (yes: bool)
        ensures
            yes == (self.value.tag == TAG_BOOL),
    {
        self.value.tag == TAG_BOOL
    }

    pub fn is_exception(&self) -> (yes: bool)
        ensures
            yes == (self.value.tag == TAG_EXCEPTION),
    {
        self.value.is_exception()
    }

    pub fn is_object(&self) -> (yes: bool)
        ensures
            yes == (self.value.tag == TAG_OBJECT),
    {
        self.value.is_object()
    }

    pub fn is_string(&self) -> (yes: bool)
        ensures
            yes == (self.value.tag == TAG_STRING),
    {
        self.value.tag == TAG_STRING
    }

    pub fn is_compiled_function(&self) -> (yes: bool)
        ensures
            yes == (self.value.tag == TAG_FUNCTION_BYTECODE),
    {
        self.value.tag == TAG_FUNCTION_BYTECODE
    }

    /// How the value is shown: its kind, not its contents.
    pub fn debug_label(&self) -> (label: &'static str)
        ensures
            label@ == tag_label(self.value.tag),
    {
        let tag: i64 = self.value.tag;
        if tag == TAG_EXCEPTION {
            "Exception(?)"
        } else if tag == TAG_NULL {
            "NULL"
        } else if tag == TAG_UNDEFINED {
            "UNDEFINED"
        } else if tag == TAG_BOOL {
            "Bool(?)"
        } else if tag == TAG_INT {
            "Int(?)"
        } else if tag == TAG_FLOAT64 {
            "Float(?)"
        } else if tag == TAG_STRING {
            "String(?)"
        } else if tag == TAG_OBJECT {
            "Object(?)"
        } else if tag == TAG_FUNCTION_BYTECODE {
            "Bytecode(?)"
        } else {
            "?"
        }
    }

    /// Starts to turn the value into text. A string is decoded as it is; any other value is first
    /// converted by the engine.
    pub fn to_string(&self) -> (asked: Asked<ToStringPending>)
        ensures
            if self.value.tag == TAG_STRING {
                &&& asked.issued() == seq![
                    SpecCall::Decode { context: self.context, value: self.value },
                ]
                &&& asked.pending == ToStringPending::Decode(
                    DecodePending { context: self.context, temporary: None },
                )
            } else {
                &&& asked.issued() == seq![
                    SpecCall::ToString { context: self.context, value: self.value },
                ]
                &&& asked.pending == ToStringPending::Convert(
                    ConvertPending { context: self.context },
                )
            },
    {
        let context: Pointer = self.context;
        let value: RawValue = self.value;
        if self.is_string() {
            Asked {
                calls: one(Call::Decode { context, value }),
                pending: ToStringPending::Decode(DecodePending { context, temporary: None }),
            }
        } else {
            Asked {
                calls: one(Call::ToString { context, value }),
                pending: ToStringPending::Convert(ConvertPending { context }),
            }
        }
    }

    /// Asks for the value as a host value; what comes back is the result.
    pub fn to_value(&self) -> (call: Call)
        ensures
            call@ == (SpecCall::Decode { context: self.context, value: self.value }),
    {
        Call::Decode { context: self.context, value: self.value }
    }

    /// Starts to read the value as a boolean.
    pub fn to_bool(&self) -> (asked: Asked<BoolPending>)
        ensures
            asked.issued() == seq![
                SpecCall::Decode { context: self.context, value: self.value },
            ],
    {
        Asked { calls: one(self.to_value()), pending: BoolPending }
    }

    /// Starts to read the reference count of the value: minus one where none is kept.
    pub fn get_ref_count(&self) -> (step: Step<RefCountPending, i32>)
        ensures
            if is_counted(self.value) {
                &&& step.issued() == seq![SpecCall::ReadRefCount { value: self.value }]
                &&& step.next is Await
            } else {
                &&& step.issued() == Seq::<SpecCall>::empty()
                &&& step.next matches Next::Return(count) && count == -1
            },
    {
        if self.value.tag < 0 {
            Step {
                calls: one(Call::ReadRefCount { value: self.value }),
                next: Next::Await(RefCountPending),
            }
        } else {
            Step { calls: none(), next: Next::Return(-1) }
        }
    }
}

impl RefCountPending {
    /// Takes the reference count.
    pub fn read(self, count: i32) -> (result: i32)
        ensures
            result == count,
    {
        count
    }
}

impl ConvertPending {
    /// Takes the converted value. One that is no string is given back, and is an error.
    pub fn converted(self, raw: RawValue) -> (step: Step<
        DecodePending,
        Result<String, ExecutionError>,
    >)
        ensures
            if raw.tag == TAG_STRING {
                &&& step.issued() == seq![SpecCall::Decode { context: self.context, value: raw }]
                &&& step.next == Next::<_, Result<String, ExecutionError>>::Await(
                    DecodePending { context: self.context, temporary: Some(raw) },
                )
            } else {
                &&& step.issued() == seq![
                    SpecCall::FreeValue { context: self.context, value: raw },
                ]
                &&& step.next matches Next::Return(result) && seen_text(result) == Err::<
                    Seq<char>,
                    _,
                >(exception_text("Could not convert value to string"@))
            },
    {
        let context: Pointer = self.context;
        if raw.tag == TAG_STRING {
            Step {
                calls: one(Call::Decode { context, value: raw }),
                next: Next::Await(DecodePending { context, temporary: Some(raw) }),
            }
        } else {
            Step {
                calls: one(Call::FreeValue { context, value: raw }),
                next: Next::Return(
                    Err(
                        ExecutionError::Exception(
                            JsValue::String("Could not convert value to string".to_owned()),
                        ),
                    ),
                ),
            }
        }
    }
}

impl DecodePending {
    /// Takes the decoded string, and gives back the value that was made for it.
    pub fn decoded(self, value: Result<JsValue, ValueError>) -> (finished: Finished<
        Result<String, ExecutionError>,
    >)
        requires
            value matches Ok(v) ==> v is String,
        ensures
            finished.issued() == match self.temporary {
                Some(raw) => seq![SpecCall::FreeValue { context: self.context, value: raw }],
                None => Seq::<SpecCall>::empty(),
            },
            match value {
                Ok(JsValueOf::String(text)) => finished.result == Ok::<String, ExecutionError>(
                    text,
                ),
                Ok(_) => true,
                Err(error) => seen_text(finished.result) == Err::<Seq<char>, _>(
                    SpecExecutionError::Conversion(error@),
                ),
            },
    {
        let calls: Vec<Call> = match self.temporary {
            Some(raw) => one(Call::FreeValue { context: self.context, value: raw }),
            None => none(),
        };
        let result: Result<String, ExecutionError> = match value {
            Ok(JsValue::String(text)) => Ok(text),
            Ok(_) => Err(ExecutionError::Conversion(ValueError::UnexpectedType)),
            Err(error) => Err(ExecutionError::Conversion(error)),
        };
        Finished { calls, result }
    }
}

impl BoolPending {
    /// Takes the decoded value: a boolean, or an error.
    pub fn decoded(self, value: Result<JsValue, ValueError>) -> (result: Result<bool, ValueError>)
        ensures
            seen_value(result) == match value {
                Ok(JsValueOf::Bool(b)) => Ok(b),
                Ok(_) => Err(SpecValueError::UnexpectedType),
                Err(error) => Err(error@),
            },
    {
        match value {
            Ok(JsValue::Bool(b)) => Ok(b),
            Ok(_) => Err(ValueError::UnexpectedType),
            Err(error) => Err(error),
        }
    }
}

} // verus!
