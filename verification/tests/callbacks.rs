use deft_quick_js::call::{CallOf, Next};
use deft_quick_js::callback::{
    caught, exec_callback, ArgumentsPending, CallbackOutcome, HostFunction, Invocation,
};
use deft_quick_js::error::{ExecutionError, ValueError};
use deft_quick_js::value::{JsValue, RawValue, TAG_EXCEPTION, TAG_INT, TAG_STRING};

const CONTEXT: u64 = 0x2000;

fn number(n: u64) -> RawValue {
    RawValue { tag: TAG_INT, payload: n }
}

fn text(s: &str) -> JsValue {
    JsValue::String(s.to_string())
}

fn function(name: &str) -> HostFunction {
    HostFunction { context: CONTEXT, name: name.to_string() }
}

fn invocation(args: Vec<JsValue>) -> Invocation {
    Invocation { context: CONTEXT, args }
}

#[test]
fn all_arguments_are_converted_in_order() {
    let mut step = exec_callback(CONTEXT, vec![number(10), number(20), number(30)]);
    for i in 0..3u64 {
        let value = number(10 * (i + 1));
        assert_eq!(step.calls, vec![CallOf::Decode { context: CONTEXT, value }]);
        step = match step.next {
            Next::Await(pending) => pending.decoded(Ok(JsValue::Int(i as i32))),
            Next::Return(_) => panic!("an argument is missing"),
        };
    }
    assert_eq!(step.calls, vec![]);
    assert_eq!(
        step.next,
        Next::Return(Ok(invocation(vec![JsValue::Int(0), JsValue::Int(1), JsValue::Int(2)])))
    );
    assert_eq!(exec_callback(CONTEXT, vec![]).next, Next::Return(Ok(invocation(vec![]))));
}

#[test]
fn an_argument_that_cannot_be_converted_ends_the_call() {
    let raw: Vec<RawValue> = (0..13).map(number).collect();
    let converted: Vec<JsValue> = (0..12).map(JsValue::Int).collect();
    let pending = ArgumentsPending { context: CONTEXT, raw, converted };
    let step = pending.decoded(Err("odd value".to_string()));
    assert_eq!(step.calls, vec![]);
    assert_eq!(
        step.next,
        Next::Return(Err(ExecutionError::Internal(
            "failed to deserialize arguments 12 (zero-based) to JS value, odd value".to_string()
        )))
    );
    let first = match exec_callback(CONTEXT, vec![number(1), number(2)]).next {
        Next::Await(pending) => pending.decoded(Err("x".to_string())),
        Next::Return(_) => panic!("an argument is missing"),
    };
    assert_eq!(
        first.next,
        Next::Return(Err(ExecutionError::Internal(
            "failed to deserialize arguments 0 (zero-based) to JS value, x".to_string()
        )))
    );
}

#[test]
fn a_result_is_converted() {
    let step = invocation(vec![]).completed(CallbackOutcome::Returned(JsValue::Int(5)));
    assert_eq!(
        step.calls,
        vec![CallOf::Encode { context: CONTEXT, value: JsValue::Int(5) }]
    );
    match step.next {
        Next::Await(pending) => assert_eq!(pending.encoded(Ok(number(5))), Ok(number(5))),
        Next::Return(_) => panic!("the result has to be converted"),
    }
    match invocation(vec![]).completed(CallbackOutcome::Returned(JsValue::Null)).next {
        Next::Await(pending) => assert_eq!(
            pending.encoded(Err("too large".to_string())),
            Err(ExecutionError::Internal(
                "failed to serialize rust value to js value, too large".to_string()
            ))
        ),
        Next::Return(_) => panic!("the result has to be converted"),
    }
}

#[test]
fn errors_of_a_host_function() {
    let outcome = |outcome| invocation(vec![]).completed(outcome).next;
    assert_eq!(
        outcome(CallbackOutcome::Failed("no".to_string())),
        Next::Return(Err(ExecutionError::Exception(text("no"))))
    );
    assert_eq!(
        outcome(CallbackOutcome::Mismatch(ValueError::UnexpectedType)),
        Next::Return(Err(ExecutionError::Conversion(ValueError::UnexpectedType)))
    );
    assert_eq!(
        caught(None),
        Err(ExecutionError::Internal("Callback panicked!".to_string()))
    );
    assert_eq!(caught(Some(Ok(number(3)))), Ok(number(3)));
}

#[test]
fn a_host_function_converts_its_arguments() {
    assert_eq!(
        function("f").call(vec![number(1)]),
        exec_callback(CONTEXT, vec![number(1)])
    );
}

#[test]
fn a_result_is_the_answer() {
    let step = function("f").reply(Ok(number(4)), "");
    assert_eq!(step.calls, vec![]);
    assert_eq!(step.next, Next::Return(number(4)));
}

#[test]
fn an_error_is_thrown() {
    let thrown = |error, shown: &str| function("fib").reply(Err(error), shown);
    let step = thrown(ExecutionError::Exception(text("no")), "unused");
    assert_eq!(step.calls, vec![CallOf::Encode { context: CONTEXT, value: text("no") }]);
    let value = RawValue { tag: TAG_STRING, payload: 3 };
    match step.next {
        Next::Await(pending) => {
            let finished = pending.encoded(value);
            assert_eq!(finished.calls, vec![CallOf::Throw { context: CONTEXT, value }]);
            assert_eq!(finished.result, RawValue { tag: TAG_EXCEPTION, payload: 0 });
        }
        Next::Return(_) => panic!("the error has to be thrown"),
    }
    let step = thrown(ExecutionError::OutOfMemory, "no memory");
    assert_eq!(
        step.calls,
        vec![CallOf::Encode {
            context: CONTEXT,
            value: text("Failed to call [fib], no memory"),
        }]
    );
}
