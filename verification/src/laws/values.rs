//! Values, objects and exceptions, each answer of the engine on its own.

use vstd::prelude::*;
use vstd::utf8::encode_utf8;

use crate::call::{Asked, Finished, Next, SpecCall, Step};
use crate::context::ContextWrapper;
use crate::error::{
    seen, seen_value, ExecutionError, NulErrorOf, SpecExecutionError, SpecValueError, ValueError,
};
use crate::exception::{
    seen_found, seen_text, ExceptionPending, ExceptionTextPending, FailurePending,
    FailureTextPending, Fallback,
};
use crate::laws::names::{lemma_clean, lemma_zero_at};
use crate::object_ref::{
    CatchPending, EncodePending, OwnedObjectRef, PropertyPending, PropertyTagPending, SetPending,
    ThenPending,
};
use crate::text::{occurs_at, occurs_in};
use crate::value::{JsValue, JsValueOf, RawValue, SpecJsValue};
use crate::value_ref::{
    BoolPending, ConvertPending, DecodePending, OwnedValueRef, RefCountPending, ToStringPending,
};

verus! {

/// The kind of a value is its tag.
pub proof fn law_kinds(
    owned: OwnedValueRef,
    null: bool,
    boolean: bool,
    exception: bool,
    object: bool,
    string: bool,
    bytecode: bool,
)
    requires
        call_ensures(OwnedValueRef::is_null, (&owned,), null),
        call_ensures(OwnedValueRef::is_bool, (&owned,), boolean),
        call_ensures(OwnedValueRef::is_exception, (&owned,), exception),
        call_ensures(OwnedValueRef::is_object, (&owned,), object),
        call_ensures(OwnedValueRef::is_string, (&owned,), string),
        call_ensures(OwnedValueRef::is_compiled_function, (&owned,), bytecode),
    ensures
        null == (owned.value.tag == 2),
        boolean == (owned.value.tag == 1),
        exception == (owned.value.tag == 6),
        object == (owned.value.tag == -1),
        string == (owned.value.tag == -7),
        bytecode == (owned.value.tag == -2),
{
}

/// A value is shown by its kind.
pub proof fn law_labels(owned: OwnedValueRef, label: &'static str)
    requires
        call_ensures(OwnedValueRef::debug_label, (&owned,), label),
    ensures
        owned.value.tag == 6 ==> label@ == "Exception(?)"@,
        owned.value.tag == 2 ==> label@ == "NULL"@,
        owned.value.tag == 3 ==> label@ == "UNDEFINED"@,
        owned.value.tag == 1 ==> label@ == "Bool(?)"@,
        owned.value.tag == 0 ==> label@ == "Int(?)"@,
        owned.value.tag == 7 ==> label@ == "Float(?)"@,
        owned.value.tag == -7 ==> label@ == "String(?)"@,
        owned.value.tag == -1 ==> label@ == "Object(?)"@,
        owned.value.tag == -2 ==> label@ == "Bytecode(?)"@,
        owned.value.tag < -7 || -7 < owned.value.tag < -2 || 3 < owned.value.tag < 6 || 7
            < owned.value.tag ==> label@ == "?"@,
{
}

/// A reference to a value is one to that value, in its context: to make one, to copy one, to take
/// the value out and to give the reference back leave the value what it is.
pub proof fn law_references(
    context: ContextWrapper,
    value: RawValue,
    taken: OwnedValueRef,
    made: Finished<OwnedValueRef>,
    copy: Finished<OwnedValueRef>,
    inner: RawValue,
    lent: Finished<RawValue>,
)
    requires
        call_ensures(OwnedValueRef::new, (&context, value), taken),
        call_ensures(OwnedValueRef::new_dup, (&context, value), made),
        call_ensures(OwnedValueRef::duplicate, (&taken,), copy),
        call_ensures(OwnedValueRef::into_inner, (taken,), inner),
        call_ensures(OwnedValueRef::as_inner_dup, (&taken,), lent),
    ensures
        taken == (OwnedValueRef { context: context.context, value }),
        made.result == taken && copy.result == taken,
        inner == value && lent.result == value,
        ({
            let dup = seq![SpecCall::DupValue { context: context.context, value }];
            made.issued() == dup && copy.issued() == dup && lent.issued() == dup
        }),
{
}

/// A string is decoded as it is; any other value is first converted by the engine, and what comes
/// back is decoded, and given back. What is decoded is the text, all of it.
pub proof fn law_text_of_a_value(
    owned: OwnedValueRef,
    asked: Asked<ToStringPending>,
    raw: RawValue,
    step: Step<DecodePending, Result<String, ExecutionError>>,
    text: String,
    direct: Finished<Result<String, ExecutionError>>,
    converted: Finished<Result<String, ExecutionError>>,
)
    requires
        call_ensures(OwnedValueRef::to_string, (&owned,), asked),
        asked.pending matches ToStringPending::Decode(pending) ==> call_ensures(
            DecodePending::decoded,
            (pending, Ok(JsValueOf::String(text))),
            direct,
        ),
        asked.pending matches ToStringPending::Convert(pending) ==> call_ensures(
            ConvertPending::converted,
            (pending, raw),
            step,
        ),
        step.next matches Next::Await(pending) ==> call_ensures(
            DecodePending::decoded,
            (pending, Ok(JsValueOf::String(text))),
            converted,
        ),
    ensures
        owned.value.tag == -7 ==> {
            &&& asked.issued() == seq![
                SpecCall::Decode { context: owned.context, value: owned.value },
            ]
            &&& direct.issued().len() == 0
            &&& direct.result == Ok::<String, ExecutionError>(text)
        },
        owned.value.tag != -7 ==> asked.issued() == seq![
            SpecCall::ToString { context: owned.context, value: owned.value },
        ],
        owned.value.tag != -7 && raw.tag == -7 ==> {
            &&& step.issued() == seq![SpecCall::Decode { context: owned.context, value: raw }]
            &&& converted.issued() == seq![
                SpecCall::FreeValue { context: owned.context, value: raw },
            ]
            &&& converted.result == Ok::<String, ExecutionError>(text)
        },
        owned.value.tag != -7 && raw.tag != -7 ==> {
            &&& step.issued() == seq![SpecCall::FreeValue { context: owned.context, value: raw }]
            &&& step.next matches Next::Return(result) && seen_text(result) == Err::<
                Seq<char>,
                _,
            >(
                SpecExecutionError::Exception(
                    SpecJsValue::String("Could not convert value to string"@),
                ),
            )
        },
{
}

/// Only a boolean is read as one, and as the one that it is.
pub proof fn law_only_booleans(
    owned: OwnedValueRef,
    asked: Asked<BoolPending>,
    value: JsValue,
    result: Result<bool, ValueError>,
    error: ValueError,
    failed: Result<bool, ValueError>,
)
    requires
        call_ensures(OwnedValueRef::to_bool, (&owned,), asked),
        call_ensures(BoolPending::decoded, (asked.pending, Ok(value)), result),
        call_ensures(BoolPending::decoded, (asked.pending, Err(error)), failed),
    ensures
        asked.issued() == seq![SpecCall::Decode { context: owned.context, value: owned.value }],
        value matches JsValueOf::Bool(b) ==> result == Ok::<bool, ValueError>(b),
        !(value is Bool) ==> seen_value(result) == Err::<bool, _>(SpecValueError::UnexpectedType),
        seen_value(failed) == Err::<bool, _>(error@),
{
}

/// The engine keeps a reference count for the values with a negative tag, and only for those.
pub proof fn law_reference_count(
    owned: OwnedValueRef,
    step: Step<RefCountPending, i32>,
    pending: RefCountPending,
    count: i32,
    result: i32,
)
    requires
        call_ensures(OwnedValueRef::get_ref_count, (&owned,), step),
        call_ensures(RefCountPending::read, (pending, count), result),
    ensures
        owned.value.tag < 0 ==> step.issued() == seq![
            SpecCall::ReadRefCount { value: owned.value },
        ] && step.next is Await,
        owned.value.tag >= 0 ==> step.issued().len() == 0 && (step.next matches Next::Return(n)
            && n == -1),
        result == count,
{
}

/// Only a value with the tag of objects is taken as an object; any other is given back.
pub proof fn law_only_objects(
    value: OwnedValueRef,
    finished: Finished<Result<OwnedObjectRef, ValueError>>,
)
    requires
        call_ensures(OwnedObjectRef::new, (value,), finished),
    ensures
        value.value.tag == -1 ==> finished.issued().len() == 0 && finished.result == Ok::<
            _,
            ValueError,
        >(OwnedObjectRef { value }),
        value.value.tag != -1 ==> {
            &&& finished.issued() == seq![
                SpecCall::FreeValue { context: value.context, value: value.value },
            ]
            &&& seen_value(finished.result) == Err::<OwnedObjectRef, _>(
                SpecValueError::Internal("Expected an object"@),
            )
        },
{
}

/// A property is read under the very bytes of its name, whether for its tag or for itself.
pub proof fn law_property_is_read(
    object: OwnedObjectRef,
    name: &str,
    read: Step<PropertyPending, Result<OwnedValueRef, ExecutionError>>,
    read_tag: Step<PropertyTagPending, Result<i64, ValueError>>,
)
    requires
        !encode_utf8(name@).contains(0u8),
        call_ensures(OwnedObjectRef::property, (&object, name), read),
        call_ensures(OwnedObjectRef::property_tag, (&object, name), read_tag),
    ensures
        ({
            let call = seq![
                SpecCall::GetProperty {
                    context: object.value.context,
                    object: object.value.value,
                    name: encode_utf8(name@),
                },
            ];
            read.issued() == call && read_tag.issued() == call
        }),
        read.next matches Next::Await(pending) && pending.context == object.value.context
            && pending.name@ == name@,
        read_tag.next matches Next::Await(pending) && pending.context == object.value.context,
{
    lemma_clean(encode_utf8(name@));
}

/// What comes of a property: the value itself, or an error that tells its name where it is
/// undefined or an exception. Its tag is the tag of whatever comes, which is given back.
pub proof fn law_property_answer(
    pending: PropertyPending,
    raw: RawValue,
    result: Result<OwnedValueRef, ExecutionError>,
    tag_pending: PropertyTagPending,
    finished: Finished<Result<i64, ValueError>>,
)
    requires
        call_ensures(PropertyPending::fetched, (pending, raw), result),
        call_ensures(PropertyTagPending::fetched, (tag_pending, raw), finished),
    ensures
        raw.tag == 6 ==> seen(result) == Err::<OwnedValueRef, _>(
            SpecExecutionError::Internal(
                "Exception while getting property '"@ + pending.name@ + "'"@,
            ),
        ),
        raw.tag == 3 ==> seen(result) == Err::<OwnedValueRef, _>(
            SpecExecutionError::Internal("Property '"@ + pending.name@ + "' not found"@),
        ),
        raw.tag != 6 && raw.tag != 3 ==> result == Ok::<_, ExecutionError>(
            OwnedValueRef { context: pending.context, value: raw },
        ),
        finished.issued() == seq![
            SpecCall::FreeValue { context: tag_pending.context, value: raw },
        ],
        finished.result == Ok::<i64, ValueError>(raw.tag),
{
}

/// A property is set under the very bytes of its name, to the very value, whether it is converted
/// first or not; only a negative status is an error.
pub proof fn law_property_is_set(
    object: OwnedObjectRef,
    name: &str,
    host_value: JsValue,
    asked: Asked<EncodePending>,
    value: RawValue,
    converted: Step<SetPending, Result<(), ExecutionError>>,
    direct: Step<SetPending, Result<(), ExecutionError>>,
    pending: SetPending,
    status: i32,
    result: Result<(), ExecutionError>,
)
    requires
        !encode_utf8(name@).contains(0u8),
        call_ensures(OwnedObjectRef::set_property, (&object, name, host_value), asked),
        call_ensures(EncodePending::encoded, (asked.pending, Ok(value)), converted),
        call_ensures(OwnedObjectRef::set_property_raw, (&object, name, value), direct),
        call_ensures(SetPending::done, (pending, status), result),
    ensures
        asked.issued() == seq![
            SpecCall::Encode { context: object.value.context, value: host_value@ },
        ],
        ({
            let call = seq![
                SpecCall::SetProperty {
                    context: object.value.context,
                    object: object.value.value,
                    name: encode_utf8(name@),
                    value,
                },
            ];
            converted.issued() == call && direct.issued() == call
        }),
        converted.next is Await && direct.next is Await,
        status < 0 ==> seen(result) == Err::<(), _>(
            SpecExecutionError::Exception(SpecJsValue::String("Could not set property"@)),
        ),
        status >= 0 ==> result == Ok::<(), ExecutionError>(()),
{
    lemma_clean(encode_utf8(name@));
}

/// A property name with a zero byte is refused, with the position of the first one and the bytes of
/// the name; the engine is not asked, and a value that was to be set is given back.
pub proof fn law_property_name_is_refused(
    object: OwnedObjectRef,
    name: &str,
    p: usize,
    value: RawValue,
    read: Step<PropertyPending, Result<OwnedValueRef, ExecutionError>>,
    read_tag: Step<PropertyTagPending, Result<i64, ValueError>>,
    set: Step<SetPending, Result<(), ExecutionError>>,
)
    requires
        p < encode_utf8(name@).len(),
        encode_utf8(name@)[p as int] == 0,
        !encode_utf8(name@).take(p as int).contains(0u8),
        call_ensures(OwnedObjectRef::property, (&object, name), read),
        call_ensures(OwnedObjectRef::property_tag, (&object, name), read_tag),
        call_ensures(OwnedObjectRef::set_property_raw, (&object, name, value), set),
    ensures
        ({
            let error = SpecValueError::StringWithZeroBytes(
                NulErrorOf { position: p, bytes: encode_utf8(name@) },
            );
            &&& read.next matches Next::Return(result) && seen(result) == Err::<OwnedValueRef, _>(
                SpecExecutionError::Conversion(error),
            )
            &&& read_tag.next matches Next::Return(result) && seen_value(result) == Err::<i64, _>(
                error,
            )
            &&& set.next matches Next::Return(result) && seen(result) == Err::<(), _>(
                SpecExecutionError::Conversion(error),
            )
        }),
        read.issued().len() == 0 && read_tag.issued().len() == 0,
        set.issued() == seq![SpecCall::FreeValue { context: object.value.context, value }],
{
    lemma_zero_at(encode_utf8(name@), p);
}

/// An object is a promise just where its properties `then` and `catch` are both objects; `catch` is
/// not read where `then` is none, and each that is read is given back.
pub proof fn law_promise_test(
    object: OwnedObjectRef,
    asked: Asked<ThenPending>,
    then_value: RawValue,
    step: Step<CatchPending, Result<bool, ValueError>>,
    catch_value: RawValue,
    finished: Finished<Result<bool, ValueError>>,
)
    requires
        call_ensures(OwnedObjectRef::is_promise, (&object,), asked),
        call_ensures(ThenPending::fetched, (asked.pending, then_value), step),
        step.next matches Next::Await(pending) ==> call_ensures(
            CatchPending::fetched,
            (pending, catch_value),
            finished,
        ),
    ensures
        ({
            let context = object.value.context;
            let read = |name: Seq<char>|
                SpecCall::GetProperty {
                    context,
                    object: object.value.value,
                    name: encode_utf8(name),
                };
            let free = |value: RawValue| SpecCall::FreeValue { context, value };
            &&& asked.issued() == seq![read("then"@)]
            &&& then_value.tag == -1 ==> step.issued() == seq![free(then_value), read("catch"@)]
                && finished.issued() == seq![free(catch_value)] && finished.result == Ok::<
                bool,
                ValueError,
            >(catch_value.tag == -1)
            &&& then_value.tag != -1 ==> step.issued() == seq![free(then_value)] && step.next
                == Next::<CatchPending, _>::Return(Ok::<bool, ValueError>(false))
        }),
{
}

/// The pending exception, where there is one: null is none, the mark of an exception is an error of
/// the binding, and any other value is described, and then given back.
pub proof fn law_pending_exception(
    context: ContextWrapper,
    asked: Asked<ExceptionPending>,
    value: RawValue,
    step: Step<ExceptionTextPending, Option<ExecutionError>>,
    text: Result<String, ExecutionError>,
    finished: Finished<Option<ExecutionError>>,
)
    requires
        call_ensures(ContextWrapper::get_exception, (&context,), asked),
        call_ensures(ExceptionPending::caught, (asked.pending, value), step),
        step.next matches Next::Await(pending) ==> call_ensures(
            ExceptionTextPending::described,
            (pending, text),
            finished,
        ),
    ensures
        asked.issued() == seq![SpecCall::GetException { context: context.context }],
        value.tag == 2 || value.tag == 6 ==> step.issued() == seq![
            SpecCall::FreeValue { context: context.context, value },
        ],
        value.tag == 2 ==> (step.next matches Next::Return(found) && found is None),
        value.tag == 6 ==> (step.next matches Next::Return(found) && seen_found(found) == Some(
            SpecExecutionError::Internal("Could get exception from runtime"@),
        )),
        value.tag != 2 && value.tag != 6 ==> {
            &&& step.issued() == seq![SpecCall::Describe { context: context.context, value }]
            &&& finished.issued() == seq![
                SpecCall::FreeValue { context: context.context, value },
            ]
            &&& text matches Err(error) ==> seen_found(finished.result) == Some(error@)
            &&& text matches Ok(message) ==> seen_found(finished.result)
                == Some(SpecExecutionError::OutOfMemory) || seen_found(finished.result) == Some(
                SpecExecutionError::Exception(SpecJsValue::String(message@)),
            )
        },
{
}

/// A text that tells, anywhere in it, that the engine is out of memory, is reported as that; any
/// other text is reported as it is.
pub proof fn law_out_of_memory(
    pending: ExceptionTextPending,
    message: String,
    before: Seq<char>,
    behind: Seq<char>,
    finished: Finished<Option<ExecutionError>>,
)
    requires
        call_ensures(ExceptionTextPending::described, (pending, Ok(message)), finished),
    ensures
        message@ == before + "out of memory"@ + behind ==> seen_found(finished.result) == Some(
            SpecExecutionError::OutOfMemory,
        ),
        (forall|a: Seq<char>, b: Seq<char>| message@ != #[trigger] (a + "out of memory"@ + b))
            ==> seen_found(finished.result) == Some(
            SpecExecutionError::Exception(SpecJsValue::String(message@)),
        ),
{
    let words = "out of memory"@;
    if message@ == before + words + behind {
        let i = before.len() as int;
        assert(message@.subrange(i, i + words.len()) =~= words);
        assert(occurs_at(words, message@, i));
    }
    if occurs_in(words, message@) {
        let i = choose|i: int| occurs_at(words, message@, i);
        let a = message@.take(i);
        let b = message@.skip(i + words.len());
        assert(message@ =~= a + message@.subrange(i, i + words.len()) + b);
        assert(message@ == a + words + b);
    }
}

/// A failure is reported as the exception that is pending; where none is, as an exception with the
/// text for that failure.
pub proof fn law_failure(
    pending: FailurePending,
    value: RawValue,
    lookup: Step<ExceptionTextPending, Option<ExecutionError>>,
    step: Step<FailureTextPending, ExecutionError>,
    text: Result<String, ExecutionError>,
    found: Finished<Option<ExecutionError>>,
    finished: Finished<ExecutionError>,
)
    requires
        call_ensures(ExceptionPending::caught, (pending.lookup, value), lookup),
        call_ensures(FailurePending::caught, (pending, value), step),
        lookup.next matches Next::Await(next) ==> call_ensures(
            ExceptionTextPending::described,
            (next, text),
            found,
        ),
        step.next matches Next::Await(next) ==> call_ensures(
            FailureTextPending::described,
            (next, text),
            finished,
        ),
    ensures
        step.issued() == lookup.issued(),
        match (step.next, lookup.next) {
            (Next::Return(error), Next::Return(found)) => match found {
                Some(exception) => error@ == exception@,
                None => error@ == SpecExecutionError::Exception(
                    SpecJsValue::String(
                        match pending.fallback {
                            Fallback::UnknownException => "Unknown exception"@,
                            Fallback::ModuleNamespace => "Failed to get module namespace"@,
                        },
                    ),
                ),
            },
            (Next::Await(_), Next::Await(_)) => finished.issued() == found.issued()
                && Some(finished.result@) == seen_found(found.result),
            _ => false,
        },
{
}

} // verus!
