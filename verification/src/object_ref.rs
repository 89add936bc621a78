//! References to engine objects, and their properties.

use vstd::prelude::*;
use vstd::string::*;
use vstd::utf8::encode_utf8;

use crate::call::{none, one, two, Asked, Call, Finished, Next, SpecCall, Step};
use crate::cstring::{make_cstring, zero_byte_error, zero_free, CString};
use crate::error::{
    exception_text, seen, seen_value, ExecutionError, SpecExecutionError, SpecValueError,
    ValueError,
};
use crate::text::concat3;
use crate::value::{JsValue, Pointer, RawValue, TAG_EXCEPTION, TAG_OBJECT, TAG_UNDEFINED};
use crate::value_ref::OwnedValueRef;

verus! {

/// A reference to an object of the engine.
#[derive(Debug, PartialEq, Eq, Structural)]
pub struct OwnedObjectRef {
    pub value: OwnedValueRef,
}

/// A property has been asked for, for its tag.
#[derive(Debug, PartialEq, Eq, Structural)]
pub struct PropertyTagPending {
    pub context: Pointer,
}

/// The property `then` has been asked for.
#[derive(Debug, PartialEq, Eq, Structural)]
pub struct ThenPending {
    pub context: Pointer,
    pub object: RawValue,
}

/// The property `catch` has been asked for.
#[derive(Debug, PartialEq, Eq, Structural)]
pub struct CatchPending {
    pub context: Pointer,
}

/// A property has been asked for.
#[derive(Debug, PartialEq, Eq)]
pub struct PropertyPending {
    pub context: Pointer,
    pub name: String,
}

/// A property has been set.
#[derive(Debug, PartialEq, Eq, Structural)]
pub struct SetPending;

/// A value has been asked to be converted, for a property.
#[derive(Debug, PartialEq, Eq)]
pub struct EncodePending {
    pub context: Pointer,
    pub object: RawValue,
    pub name: String,
}

/// The error for a name that holds a zero byte.
pub open spec fn name_error(name: Seq<char>) -> SpecExecutionError {
    SpecExecutionError::Conversion(zero_byte_error(encode_utf8(name)))
}

/// The call that sets a property, or the error for its name.
pub(crate) fn set_property_call(
    context: Pointer,
    object: RawValue,
    name: &str,
    value: RawValue,
) -> (call: Result<Call, ExecutionError>)
    ensures
        match call {
            Ok(call) => zero_free(encode_utf8(name@)) && call@ == (SpecCall::SetProperty {
                context,
                object,
                name: encode_utf8(name@),
                value,
            }),
            Err(error) => !zero_free(encode_utf8(name@)) && error@ == name_error(name@),
        },
{
    match make_cstring(name.as_bytes_vec()) {
        Ok(name) => Ok(Call::SetProperty { context, object, name, value }),
        Err(error) => Err(ExecutionError::Conversion(error)),
    }
}

/// The outcome of setting a property, by the engine's status.
pub open spec fn set_outcome(status: i32) -> Result<(), SpecExecutionError> {
    if status < 0 {
        Err(exception_text("Could not set property"@))
    } else {
        Ok(())
    }
}

/// How setting a property begins: with the call, which takes over the reference to the value, or
/// with the error for the name, where the reference is given back.
pub open spec fn set_step(
    step: Step<SetPending, Result<(), ExecutionError>>,
    context: Pointer,
    object: RawValue,
    name: Seq<char>,
    value: RawValue,
) -> bool {
    if zero_free(encode_utf8(name)) {
        &&& step.issued() == seq![
            SpecCall::SetProperty { context, object, name: encode_utf8(name), value },
        ]
        &&& step.next is Await
    } else {
        &&& step.issued() == seq![SpecCall::FreeValue { context, value }]
        &&& step.next matches Next::Return(result) && seen(result) == Err::<(), _>(
            name_error(name),
        )
    }
}

fn start_set(context: Pointer, object: RawValue, name: &str, value: RawValue) -> (step: Step<
    SetPending,
    Result<(), ExecutionError>,
>)
    ensures
        set_step(step, context, object, name@, value),
{
    match set_property_call(context, object, name, value) {
        Ok(call) => Step { calls: one(call), next: Next::Await(SetPending) },
        Err(error) => Step {
            calls: one(Call::FreeValue { context, value }),
            next: Next::Return(Err(error)),
        },
    }
}

impl OwnedObjectRef {
    /// Takes over a reference to an object. A value of another kind is given back, and is an
    /// error.
    pub fn new(value: OwnedValueRef) -> (finished: Finished<Result<OwnedObjectRef, ValueError>>)
        ensures
            if value.value.tag == TAG_OBJECT {
                &&& finished.issued() == Seq::<SpecCall>::empty()
                &&& finished.result == Ok::<_, ValueError>(OwnedObjectRef { value })
            } else {
                &&& finished.issued() == seq![
                    SpecCall::FreeValue { context: value.context, value: value.value },
                ]
                &&& seen_value(finished.result) == Err::<OwnedObjectRef, _>(
                    SpecValueError::Internal("Expected an object"@),
                )
            },
    {
        if !value.is_object() {
            Finished {
                calls: one(value.release()),
                result: Err(ValueError::Internal("Expected an object".to_owned())),
            }
        } else {
            Finished { calls: none(), result: Ok(OwnedObjectRef { value }) }
        }
    }

    /// The reference, as one to a value.
    pub fn into_value(self) -> (value: OwnedValueRef)
        ensures
            value == self.value,
    {
        self.value
    }

    /// Starts to read the tag of a property.
    pub fn property_tag(&self, name: &str) -> (step: Step<
        PropertyTagPending,
        Result<i64, ValueError>,
    >)
        ensures
            if zero_free(encode_utf8(name@)) {
                &&& step.issued() == seq![
                    SpecCall::GetProperty {
                        context: self.value.context,
                        object: self.value.value,
                        name: encode_utf8(name@),
                    },
                ]
                &&& step.next == Next::<_, Result<i64, ValueError>>::Await(
                    PropertyTagPending { context: self.value.context },
                )
            } else {
                &&& step.issued() == Seq::<SpecCall>::empty()
                &&& step.next matches Next::Return(result) && seen_value(result) == Err::<i64, _>(
                    zero_byte_error(encode_utf8(name@)),
                )
            },
    {
        let context: Pointer = self.value.context;
        match make_cstring(name.as_bytes_vec()) {
            Ok(name) => Step {
                calls: one(Call::GetProperty { context, object: self.value.value, name }),
                next: Next::Await(PropertyTagPending { context }),
            },
            Err(error) => Step { calls: none(), next: Next::Return(Err(error)) },
        }
    }

    /// Starts to decide whether the object is a promise: whether its properties `then` and
    /// `catch` are objects. `catch` is only read where `then` is one.
    pub fn is_promise(&self) -> (asked: Asked<ThenPending>)
        ensures
            asked.issued() == seq![
                SpecCall::GetProperty {
                    context: self.value.context,
                    object: self.value.value,
                    name: encode_utf8("then"@),
                },
            ],
            asked.pending == (ThenPending {
                context: self.value.context,
                object: self.value.value,
            }),
    {
        let context: Pointer = self.value.context;
        let object: RawValue = self.value.value;
        Asked {
            calls: one(Call::GetProperty { context, object, name: then_name() }),
            pending: ThenPending { context, object },
        }
    }

    /// Starts to read a property.
    pub fn property(&self, name: &str) -> (step: Step<
        PropertyPending,
        Result<OwnedValueRef, ExecutionError>,
    >)
        ensures
            if zero_free(encode_utf8(name@)) {
                &&& step.issued() == seq![
                    SpecCall::GetProperty {
                        context: self.value.context,
                        object: self.value.value,
                        name: encode_utf8(name@),
                    },
                ]
                &&& step.next matches Next::Await(pending) && pending.context
                    == self.value.context && pending.name@ == name@
            } else {
                &&& step.issued() == Seq::<SpecCall>::empty()
                &&& step.next matches Next::Return(result) && seen(result) == Err::<
                    OwnedValueRef,
                    _,
                >(name_error(name@))
            },
    {
        let context: Pointer = self.value.context;
        match make_cstring(name.as_bytes_vec()) {
            Ok(text) => Step {
                calls: one(
                    Call::GetProperty { context, object: self.value.value, name: text },
                ),
                next: Next::Await(PropertyPending { context, name: name.to_owned() }),
            },
            Err(error) => Step {
                calls: none(),
                next: Next::Return(Err(ExecutionError::Conversion(error))),
            },
        }
    }

    /// Starts to set a property. The reference to `value` is taken over, and goes to the engine;
    /// where the name holds a zero byte, it is given back.
    pub fn set_property_raw(&self, name: &str, value: RawValue) -> (step: Step<
        SetPending,
        Result<(), ExecutionError>,
    >)
        ensures
            set_step(step, self.value.context, self.value.value, name@, value),
    {
        start_set(self.value.context, self.value.value, name, value)
    }

    /// Starts to set a property to a host value: asks for the value to be converted.
    pub fn set_property(&self, name: &str, value: JsValue) -> (asked: Asked<EncodePending>)
        ensures
            asked.issued() == seq![
                SpecCall::Encode { context: self.value.context, value: value@ },
            ],
            asked.pending.context == self.value.context,
            asked.pending.object == self.value.value,
            asked.pending.name@ == name@,
    {
        Asked {
            calls: one(Call::Encode { context: self.value.context, value }),
            pending: EncodePending {
                context: self.value.context,
                object: self.value.value,
                name: name.to_owned(),
            },
        }
    }
}

impl PropertyTagPending {
    /// Takes the property, and gives it back.
    pub fn fetched(self, raw: RawValue) -> (finished: Finished<Result<i64, ValueError>>)
        ensures
            finished.issued() == seq![SpecCall::FreeValue { context: self.context, value: raw }],
            finished.result == Ok::<i64, ValueError>(raw.tag),
    {
        Finished {
            calls: one(Call::FreeValue { context: self.context, value: raw }),
            result: Ok(raw.tag),
        }
    }
}

/// The name `then`.
fn then_name() -> (name: CString)
    ensures
        name@ == encode_utf8("then"@),
{
    let bytes: Vec<u8> = "then".as_bytes_vec();
    proof {
        reveal_strlit("then");
        vstd::utf8::is_ascii_chars_encode_utf8("then"@);
        assert(zero_free(bytes@));
    }
    CString::from_zero_free(bytes)
}

/// The name `catch`.
fn catch_name() -> (name: CString)
    ensures
        name@ == encode_utf8("catch"@),
{
    let bytes: Vec<u8> = "catch".as_bytes_vec();
    proof {
        reveal_strlit("catch");
        vstd::utf8::is_ascii_chars_encode_utf8("catch"@);
        assert(zero_free(bytes@));
    }
    CString::from_zero_free(bytes)
}

impl ThenPending {
    /// Takes the property `then`, and gives it back.
    pub fn fetched(self, raw: RawValue) -> (step: Step<CatchPending, Result<bool, ValueError>>)
        ensures
            if raw.tag == TAG_OBJECT {
                &&& step.issued() == seq![
                    SpecCall::FreeValue { context: self.context, value: raw },
                    SpecCall::GetProperty {
                        context: self.context,
                        object: self.object,
                        name: encode_utf8("catch"@),
                    },
                ]
                &&& step.next == Next::<_, Result<bool, ValueError>>::Await(
                    CatchPending { context: self.context },
                )
            } else {
                &&& step.issued() == seq![
                    SpecCall::FreeValue { context: self.context, value: raw },
                ]
                &&& step.next == Next::<CatchPending, _>::Return(Ok::<bool, ValueError>(false))
            },
    {
        let context: Pointer = self.context;
        if raw.is_object() {
            Step {
                calls: two(
                    Call::FreeValue { context, value: raw },
                    Call::GetProperty { context, object: self.object, name: catch_name() },
                ),
                next: Next::Await(CatchPending { context }),
            }
        } else {
            Step {
                calls: one(Call::FreeValue { context, value: raw }),
                next: Next::Return(Ok(false)),
            }
        }
    }
}

impl CatchPending {
    /// Takes the property `catch`, and gives it back.
    pub fn fetched(self, raw: RawValue) -> (finished: Finished<Result<bool, ValueError>>)
        ensures
            finished.issued() == seq![SpecCall::FreeValue { context: self.context, value: raw }],
            finished.result == Ok::<bool, ValueError>(raw.tag == TAG_OBJECT),
    {
        Finished {
            calls: one(Call::FreeValue { context: self.context, value: raw }),
            result: Ok(raw.is_object()),
        }
    }
}

impl PropertyPending {
    /// Takes the property. An exception, and a property that is undefined, are errors; the values
    /// that stand for them are not counted, so there is nothing to give back.
    pub fn fetched(self, raw: RawValue) -> (result: Result<OwnedValueRef, ExecutionError>)
        ensures
            seen(result) == if raw.tag == TAG_EXCEPTION {
                Err(
                    SpecExecutionError::Internal(
                        "Exception while getting property '"@ + self.name@ + "'"@,
                    ),
                )
            } else if raw.tag == TAG_UNDEFINED {
                Err(SpecExecutionError::Internal("Property '"@ + self.name@ + "' not found"@))
            } else {
                Ok(OwnedValueRef { context: self.context, value: raw })
            },
    {
        if raw.is_exception() {
            Err(
                ExecutionError::Internal(
                    concat3("Exception while getting property '", self.name.as_str(), "'"),
                ),
            )
        } else if raw.tag == TAG_UNDEFINED {
            Err(
                ExecutionError::Internal(
                    concat3("Property '", self.name.as_str(), "' not found"),
                ),
            )
        } else {
            Ok(OwnedValueRef { context: self.context, value: raw })
        }
    }
}

impl SetPending {
    /// Takes the engine's status: a negative one is an error.
    pub fn done(self, status: i32) -> (result: Result<(), ExecutionError>)
        ensures
            seen(result) == set_outcome(status),
    {
        if status < 0 {
            Err(
                ExecutionError::Exception(JsValue::String("Could not set property".to_owned())),
            )
        } else {
            Ok(())
        }
    }
}

impl EncodePending {
    /// Takes the converted value, and sets the property to it.
    pub fn encoded(self, value: Result<RawValue, ValueError>) -> (step: Step<
        SetPending,
        Result<(), ExecutionError>,
    >)
        ensures
            match value {
                Ok(raw) => set_step(step, self.context, self.object, self.name@, raw),
                Err(error) => {
                    &&& step.issued() == Seq::<SpecCall>::empty()
                    &&& step.next matches Next::Return(result) && seen(result) == Err::<(), _>(
                        SpecExecutionError::Conversion(error@),
                    )
                },
            },
    {
        match value {
            Ok(raw) => start_set(self.context, self.object, self.name.as_str(), raw),
            Err(error) => Step {
                calls: none(),
                next: Next::Return(Err(ExecutionError::Conversion(error))),
            },
        }
    }
}

} // verus!
