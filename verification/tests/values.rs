use deft_quick_js::call::{Call, CallOf, Next};
use deft_quick_js::context::ContextWrapper;
use deft_quick_js::cstring::make_cstring;
use deft_quick_js::engine::{COMPILE_MODULE, EVAL_FLAG_COMPILE_ONLY, EVAL_TYPE_MODULE};
use deft_quick_js::error::{ContextError, ExecutionError, NulErrorOf, ValueError};
use deft_quick_js::object_ref::OwnedObjectRef;
use deft_quick_js::value::{
    ClassId, JsValue, RawValue, ResourceObject, ResourceValue, TAG_BOOL, TAG_EXCEPTION,
    TAG_FLOAT64, TAG_FUNCTION_BYTECODE, TAG_INT, TAG_NULL, TAG_OBJECT, TAG_STRING, TAG_UNDEFINED,
};
use deft_quick_js::value_ref::{DecodePending, OwnedValueRef, ToStringPending};

const CONTEXT: u64 = 0x2000;

fn context() -> ContextWrapper {
    let step = ContextWrapper::new(None).pending.created(0x1000);
    match step.next {
        Next::Await(pending) => pending.created(CONTEXT).result.unwrap(),
        Next::Return(_) => panic!("no context was asked for"),
    }
}

fn raw(tag: i64, payload: u64) -> RawValue {
    RawValue { tag, payload }
}

fn owned(tag: i64) -> OwnedValueRef {
    OwnedValueRef::new(&context(), raw(tag, 9))
}

fn object() -> OwnedObjectRef {
    OwnedObjectRef::new(owned(TAG_OBJECT)).result.unwrap()
}

fn c(text: &str) -> deft_quick_js::CString {
    make_cstring(text.as_bytes().to_vec()).unwrap()
}

fn free(value: RawValue) -> Call {
    CallOf::FreeValue { context: CONTEXT, value }
}

fn text(s: &str) -> JsValue {
    JsValue::String(s.to_string())
}

#[test]
fn the_tags_are_those_of_the_engine() {
    assert_eq!(TAG_STRING, libquickjs_sys::JS_TAG_STRING as i64);
    assert_eq!(TAG_FUNCTION_BYTECODE, libquickjs_sys::JS_TAG_FUNCTION_BYTECODE as i64);
    assert_eq!(TAG_OBJECT, libquickjs_sys::JS_TAG_OBJECT as i64);
    assert_eq!(TAG_INT, libquickjs_sys::JS_TAG_INT as i64);
    assert_eq!(TAG_BOOL, libquickjs_sys::JS_TAG_BOOL as i64);
    assert_eq!(TAG_NULL, libquickjs_sys::JS_TAG_NULL as i64);
    assert_eq!(TAG_UNDEFINED, libquickjs_sys::JS_TAG_UNDEFINED as i64);
    assert_eq!(TAG_EXCEPTION, libquickjs_sys::JS_TAG_EXCEPTION as i64);
    assert_eq!(TAG_FLOAT64, libquickjs_sys::JS_TAG_FLOAT64 as i64);
}

#[test]
fn the_flags_are_those_of_the_engine() {
    assert_eq!(EVAL_TYPE_MODULE, libquickjs_sys::JS_EVAL_TYPE_MODULE);
    assert_eq!(EVAL_FLAG_COMPILE_ONLY, libquickjs_sys::JS_EVAL_FLAG_COMPILE_ONLY);
    assert_eq!(
        COMPILE_MODULE,
        (libquickjs_sys::JS_EVAL_TYPE_MODULE | libquickjs_sys::JS_EVAL_FLAG_COMPILE_ONLY) as i32
    );
}

#[test]
fn kinds_are_told_apart() {
    let checks = |v: &OwnedValueRef| {
        [
            v.is_null(),
            v.is_bool(),
            v.is_exception(),
            v.is_object(),
            v.is_string(),
            v.is_compiled_function(),
        ]
    };
    let tags = [TAG_NULL, TAG_BOOL, TAG_EXCEPTION, TAG_OBJECT, TAG_STRING, TAG_FUNCTION_BYTECODE];
    for (i, tag) in tags.iter().enumerate() {
        let mut expected = [false; 6];
        expected[i] = true;
        assert_eq!(checks(&owned(*tag)), expected);
    }
    assert_eq!(checks(&owned(TAG_INT)), [false; 6]);
}

#[test]
fn values_are_shown_by_kind() {
    for (tag, label) in [
        (TAG_EXCEPTION, "Exception(?)"),
        (TAG_NULL, "NULL"),
        (TAG_UNDEFINED, "UNDEFINED"),
        (TAG_BOOL, "Bool(?)"),
        (TAG_INT, "Int(?)"),
        (TAG_FLOAT64, "Float(?)"),
        (TAG_STRING, "String(?)"),
        (TAG_OBJECT, "Object(?)"),
        (TAG_FUNCTION_BYTECODE, "Bytecode(?)"),
        (-8, "?"),
        (4, "?"),
    ] {
        assert_eq!(owned(tag).debug_label(), label);
    }
}

#[test]
fn a_duplicate_is_released_once() {
    let value = raw(TAG_OBJECT, 9);
    let first = OwnedValueRef::new_dup(&context(), value);
    assert_eq!(first.calls, vec![CallOf::DupValue { context: CONTEXT, value }]);
    let second = first.result.duplicate();
    assert_eq!(second.calls, vec![CallOf::DupValue { context: CONTEXT, value }]);
    assert_eq!(second.result.release(), free(value));
    assert_eq!(*first.result.as_inner(), value);
    assert_eq!(
        first.result.as_inner_dup().calls,
        vec![CallOf::DupValue { context: CONTEXT, value }]
    );
    assert_eq!(first.result.into_inner(), value);
}

#[test]
fn a_string_is_decoded_as_it_is() {
    let asked = owned(TAG_STRING).to_string();
    assert_eq!(
        asked.calls,
        vec![CallOf::Decode { context: CONTEXT, value: raw(TAG_STRING, 9) }]
    );
    match asked.pending {
        ToStringPending::Decode(pending) => {
            let finished = pending.decoded(Ok(text("hello")));
            assert_eq!(finished.calls, vec![]);
            assert_eq!(finished.result, Ok("hello".to_string()));
        }
        ToStringPending::Convert(_) => panic!("a string needs no conversion"),
    }
}

#[test]
fn another_value_is_converted_first() {
    let convert = || match owned(TAG_INT).to_string().pending {
        ToStringPending::Convert(pending) => pending,
        ToStringPending::Decode(_) => panic!("an integer has to be converted"),
    };
    assert_eq!(
        owned(TAG_INT).to_string().calls,
        vec![CallOf::ToString { context: CONTEXT, value: raw(TAG_INT, 9) }]
    );
    let made = raw(TAG_STRING, 77);
    let step = convert().converted(made);
    assert_eq!(step.calls, vec![CallOf::Decode { context: CONTEXT, value: made }]);
    assert_eq!(
        step.next,
        Next::Await(DecodePending { context: CONTEXT, temporary: Some(made) })
    );
    let finished =
        DecodePending { context: CONTEXT, temporary: Some(made) }.decoded(Ok(text("9")));
    assert_eq!(finished.calls, vec![free(made)]);
    assert_eq!(finished.result, Ok("9".to_string()));
    let failed = DecodePending { context: CONTEXT, temporary: Some(made) }
        .decoded(Err(ValueError::UnexpectedType));
    assert_eq!(failed.calls, vec![free(made)]);
    assert_eq!(
        failed.result,
        Err(ExecutionError::Conversion(ValueError::UnexpectedType))
    );
    let step = convert().converted(raw(TAG_EXCEPTION, 0));
    assert_eq!(step.calls, vec![free(raw(TAG_EXCEPTION, 0))]);
    assert_eq!(
        step.next,
        Next::Return(Err(ExecutionError::Exception(text("Could not convert value to string"))))
    );
}

#[test]
fn only_a_boolean_is_a_boolean() {
    let asked = owned(TAG_BOOL).to_bool();
    assert_eq!(asked.calls, vec![owned(TAG_BOOL).to_value()]);
    assert_eq!(asked.pending.decoded(Ok(JsValue::Bool(true))), Ok(true));
    assert_eq!(
        owned(TAG_INT).to_bool().pending.decoded(Ok(JsValue::Int(1))),
        Err(ValueError::UnexpectedType)
    );
    assert_eq!(
        owned(TAG_BOOL).to_bool().pending.decoded(Err(ValueError::Other("x".to_string()))),
        Err(ValueError::Other("x".to_string()))
    );
}

#[test]
fn references_are_counted_below_zero_only() {
    assert_eq!(owned(TAG_INT).get_ref_count().next, Next::Return(-1));
    let step = owned(TAG_OBJECT).get_ref_count();
    assert_eq!(step.calls, vec![CallOf::ReadRefCount { value: raw(TAG_OBJECT, 9) }]);
    match step.next {
        Next::Await(pending) => assert_eq!(pending.read(3), 3),
        Next::Return(_) => panic!("an object has a count"),
    }
}

#[test]
fn only_an_object_is_an_object() {
    let finished = OwnedObjectRef::new(owned(TAG_OBJECT));
    assert_eq!(finished.calls, vec![]);
    assert_eq!(finished.result.unwrap().into_value(), owned(TAG_OBJECT));
    let finished = OwnedObjectRef::new(owned(TAG_STRING));
    assert_eq!(finished.calls, vec![free(raw(TAG_STRING, 9))]);
    assert_eq!(
        finished.result,
        Err(ValueError::Internal("Expected an object".to_string()))
    );
}

#[test]
fn the_tag_of_a_property_is_read_and_given_back() {
    let step = object().property_tag("then");
    assert_eq!(
        step.calls,
        vec![CallOf::GetProperty {
            context: CONTEXT,
            object: raw(TAG_OBJECT, 9),
            name: c("then"),
        }]
    );
    match step.next {
        Next::Await(pending) => {
            let finished = pending.fetched(raw(TAG_STRING, 5));
            assert_eq!(finished.calls, vec![free(raw(TAG_STRING, 5))]);
            assert_eq!(finished.result, Ok(TAG_STRING));
        }
        Next::Return(_) => panic!("the name is fine"),
    }
    assert_eq!(
        object().property_tag("a\0").next,
        Next::Return(Err(ValueError::StringWithZeroBytes(NulErrorOf {
            position: 1,
            bytes: vec![97, 0],
        })))
    );
}

#[test]
fn a_promise_has_then_and_catch() {
    let function = raw(TAG_OBJECT, 50);
    let asked = object().is_promise();
    assert_eq!(
        asked.calls,
        vec![CallOf::GetProperty {
            context: CONTEXT,
            object: raw(TAG_OBJECT, 9),
            name: c("then"),
        }]
    );
    let step = asked.pending.fetched(function);
    assert_eq!(
        step.calls,
        vec![
            free(function),
            CallOf::GetProperty {
                context: CONTEXT,
                object: raw(TAG_OBJECT, 9),
                name: c("catch"),
            },
        ]
    );
    match step.next {
        Next::Await(pending) => {
            let finished = pending.fetched(function);
            assert_eq!(finished.calls, vec![free(function)]);
            assert_eq!(finished.result, Ok(true));
        }
        Next::Return(_) => panic!("catch has to be read"),
    }
    match object().is_promise().pending.fetched(function).next {
        Next::Await(pending) => {
            assert_eq!(pending.fetched(raw(TAG_UNDEFINED, 0)).result, Ok(false))
        }
        Next::Return(_) => panic!("catch has to be read"),
    }
    let step = object().is_promise().pending.fetched(raw(TAG_UNDEFINED, 0));
    assert_eq!(step.calls, vec![free(raw(TAG_UNDEFINED, 0))]);
    assert_eq!(step.next, Next::Return(Ok(false)));
}

#[test]
fn a_property_is_handed_over() {
    let fetched = |value: RawValue| match object().property("size").next {
        Next::Await(pending) => pending.fetched(value),
        Next::Return(_) => panic!("the name is fine"),
    };
    assert_eq!(
        fetched(raw(TAG_STRING, 4)),
        Ok(OwnedValueRef { context: CONTEXT, value: raw(TAG_STRING, 4) })
    );
    assert_eq!(
        fetched(raw(TAG_EXCEPTION, 0)),
        Err(ExecutionError::Internal("Exception while getting property 'size'".to_string()))
    );
    assert_eq!(
        fetched(raw(TAG_UNDEFINED, 0)),
        Err(ExecutionError::Internal("Property 'size' not found".to_string()))
    );
    assert_eq!(
        object().property("\0").next,
        Next::Return(Err(ExecutionError::Conversion(ValueError::StringWithZeroBytes(
            NulErrorOf { position: 0, bytes: vec![0] }
        ))))
    );
}

#[test]
fn a_property_is_set() {
    let asked = object().set_property("size", JsValue::Int(3));
    assert_eq!(
        asked.calls,
        vec![CallOf::Encode { context: CONTEXT, value: JsValue::Int(3) }]
    );
    let three = raw(TAG_INT, 3);
    let step = asked.pending.encoded(Ok(three));
    assert_eq!(
        step.calls,
        vec![CallOf::SetProperty {
            context: CONTEXT,
            object: raw(TAG_OBJECT, 9),
            name: c("size"),
            value: three,
        }]
    );
    assert_eq!(step, object().set_property_raw("size", three));
    match step.next {
        Next::Await(pending) => assert_eq!(pending.done(1), Ok(())),
        Next::Return(_) => panic!("the name is fine"),
    }
    match object().set_property_raw("size", three).next {
        Next::Await(pending) => assert_eq!(
            pending.done(-1),
            Err(ExecutionError::Exception(text("Could not set property")))
        ),
        Next::Return(_) => panic!("the name is fine"),
    }
    let asked = object().set_property("size", JsValue::Int(3));
    assert_eq!(
        asked.pending.encoded(Err(ValueError::UnexpectedType)).next,
        Next::Return(Err(ExecutionError::Conversion(ValueError::UnexpectedType)))
    );
    let step = object().set_property_raw("a\0b", three);
    assert_eq!(step.calls, vec![free(three)]);
    assert_eq!(step, object().set_property("a\0b", JsValue::Int(3)).pending.encoded(Ok(three)));
    assert_eq!(
        step.next,
        Next::Return(Err(ExecutionError::Conversion(ValueError::StringWithZeroBytes(
            NulErrorOf { position: 1, bytes: vec![97, 0, 98] }
        ))))
    );
}

#[test]
fn a_property_is_read_as_it_was_set() {
    let value = raw(TAG_STRING, 77);
    let set = object().set_property("name", text("x")).pending.encoded(Ok(value));
    let read = object().property("name");
    match (&set.calls[0], &read.calls[0]) {
        (
            CallOf::SetProperty { context, object, name, value: stored },
            CallOf::GetProperty { context: c2, object: o2, name: n2 },
        ) => {
            assert_eq!((context, object, name), (c2, o2, n2));
            match read.next {
                Next::Await(pending) => assert_eq!(
                    pending.fetched(*stored),
                    Ok(OwnedValueRef { context: CONTEXT, value })
                ),
                Next::Return(_) => panic!("the name is fine"),
            }
        }
        other => panic!("{:?}", other),
    }
    assert_ne!(object().property("name").calls, object().property("names").calls);
}

#[test]
fn classes_and_resources() {
    assert_eq!(ClassId::new().id(), 0);
    let object = ResourceObject { data: ResourceValue { handle: 7 } };
    assert_eq!(object.data.handle, 7);
    assert_ne!(ContextError::RuntimeCreationFailed, ContextError::ContextCreationFailed);
}
