use deft_quick_js::call::{Call, CallOf, Next};
use deft_quick_js::context::ContextWrapper;
use deft_quick_js::error::ExecutionError;
use deft_quick_js::resolve::{
    PromiseJobPending, PromiseReasonPending, PromiseState, PromiseStatePending, Resolution,
    ResolutionPending,
};
use deft_quick_js::value::{
    JsValue, RawValue, TAG_EXCEPTION, TAG_INT, TAG_NULL, TAG_OBJECT,
};
use deft_quick_js::value_ref::OwnedValueRef;

const RUNTIME: u64 = 0x1000;
const CONTEXT: u64 = 0x2000;
const PROMISE: RawValue = RawValue { tag: TAG_OBJECT, payload: 90 };
fn context() -> ContextWrapper {
    match ContextWrapper::new(None).pending.created(RUNTIME).next {
        Next::Await(pending) => pending.created(CONTEXT).result.unwrap(),
        Next::Return(_) => panic!("no context was asked for"),
    }
}

fn free(value: RawValue) -> Call {
    CallOf::FreeValue { context: CONTEXT, value }
}

fn ask_state() -> Call {
    CallOf::PromiseState { context: CONTEXT, promise: PROMISE }
}

fn ask_result() -> Call {
    CallOf::PromiseResult { context: CONTEXT, promise: PROMISE }
}

fn run_job() -> Call {
    CallOf::ExecutePendingJob { runtime: RUNTIME }
}

fn is_final(step: &Resolution, value: RawValue) {
    assert_eq!(step.next, Next::Return(Ok(OwnedValueRef { context: CONTEXT, value })));
}

fn state_pending(step: Resolution) -> PromiseStatePending {
    match step.next {
        Next::Await(ResolutionPending::State(pending)) => pending,
        other => panic!("{:?}", other),
    }
}

fn job_pending(step: Resolution) -> PromiseJobPending {
    assert_eq!(step.calls, vec![run_job()]);
    match step.next {
        Next::Await(ResolutionPending::Job(pending)) => pending,
        other => panic!("{:?}", other),
    }
}

fn asked() -> PromiseStatePending {
    let step = context().resolve_value(PROMISE);
    assert_eq!(step.calls, vec![ask_state()]);
    state_pending(step)
}

fn rejected() -> PromiseReasonPending {
    let step = asked().known(PromiseState::Rejected);
    assert_eq!(step.calls, vec![ask_result()]);
    match step.next {
        Next::Await(ResolutionPending::Reason(pending)) => pending,
        other => panic!("{:?}", other),
    }
}

#[test]
fn objects_that_are_no_promises_are_final() {
    let step = asked().known(PromiseState::NoPromise);
    assert_eq!(step.calls, vec![]);
    is_final(&step, PROMISE);
}

#[test]
fn jobs_are_run_until_a_promise_is_fulfilled() {
    let mut pending = asked();
    for _ in 0..3 {
        let step = job_pending(pending.known(PromiseState::Pending)).done(1);
        assert_eq!(step.calls, vec![ask_state()]);
        pending = state_pending(step);
    }
    let step = pending.known(PromiseState::Fulfilled);
    assert_eq!(step.calls, vec![ask_result()]);
    let value = RawValue { tag: TAG_INT, payload: 5 };
    let step = match step.next {
        Next::Await(ResolutionPending::Value(pending)) => pending.obtained(value),
        other => panic!("{:?}", other),
    };
    assert_eq!(step.calls, vec![free(PROMISE)]);
    is_final(&step, value);
}

#[test]
fn a_promise_without_a_job_is_final() {
    let step = job_pending(asked().known(PromiseState::Pending)).done(0);
    assert_eq!(step.calls, vec![]);
    is_final(&step, PROMISE);
}

#[test]
fn a_job_that_fails_is_an_error() {
    let step = job_pending(asked().known(PromiseState::Pending)).done(-1);
    assert_eq!(step.calls, vec![free(PROMISE), CallOf::GetException { context: CONTEXT }]);
    match step.next {
        Next::Await(ResolutionPending::Exception(failure)) => {
            let null = RawValue { tag: TAG_NULL, payload: 0 };
            assert_eq!(
                failure.caught(null).next,
                Next::Return(ExecutionError::Exception(JsValue::String(
                    "Unknown exception".to_string()
                )))
            );
        }
        other => panic!("{:?}", other),
    }
}

#[test]
fn a_rejection_is_an_error() {
    let reason = RawValue { tag: TAG_OBJECT, payload: 93 };
    let step = rejected().obtained(reason);
    assert_eq!(
        step.calls,
        vec![free(PROMISE), CallOf::Describe { context: CONTEXT, value: reason }]
    );
    match step.next {
        Next::Await(ResolutionPending::ExceptionText(pending)) => {
            let finished = pending.described(Ok("Error: no".to_string()));
            assert_eq!(finished.calls, vec![free(reason)]);
            assert_eq!(
                finished.result,
                ExecutionError::Exception(JsValue::String("Error: no".to_string()))
            );
        }
        other => panic!("{:?}", other),
    }
    let null = RawValue { tag: TAG_NULL, payload: 0 };
    let step = rejected().obtained(null);
    assert_eq!(step.calls, vec![free(PROMISE), free(null)]);
    assert_eq!(
        step.next,
        Next::Return(Err(ExecutionError::Exception(JsValue::String(
            "Unknown exception".to_string()
        ))))
    );
    let step = rejected().obtained(RawValue { tag: TAG_EXCEPTION, payload: 0 });
    assert_eq!(
        step.next,
        Next::Return(Err(ExecutionError::Internal(
            "Could get exception from runtime".to_string()
        )))
    );
}

#[test]
fn evaluation_and_calls_follow_promises() {
    let step = match context().eval("f()", 0, "main.js").next {
        Next::Await(pending) => pending.evaluated(PROMISE),
        Next::Return(_) => panic!("the code is evaluated"),
    };
    assert_eq!(step, context().resolve_value(PROMISE));
    let function = RawValue { tag: TAG_OBJECT, payload: 94 };
    let call = context().call_function(function, vec![function]);
    assert_eq!(call.returned(Ok(PROMISE)), step);
    assert_eq!(step.calls, vec![ask_state()]);
}
