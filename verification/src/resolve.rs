//! The final value of what the engine returned: an exception becomes an error, and a promise is
//! followed, job by job, to what it settles on.

use vstd::prelude::*;

use crate::call::{none, one, seen_calls, two, Call, Next, SpecCall, Step};
use crate::error::{exception_text, ExecutionError};
use crate::exception::{
    immediate_error, needs_text, ExceptionTextPending, FailurePending, FailureTextPending,
    Fallback,
};
use crate::value::{Pointer, RawValue, TAG_EXCEPTION, TAG_OBJECT};
use crate::value_ref::OwnedValueRef;

verus! {

/// The state of an object, as far as it is a promise.
#[derive(Debug, Clone, Copy, PartialEq, Eq, Structural)]
pub enum PromiseState {
    Pending,
    Fulfilled,
    Rejected,
    /// It is not a promise.
    NoPromise,
}

/// A value whose final value is looked for, and the reference to it.
#[derive(Debug, Clone, Copy, PartialEq, Eq, Structural)]
pub struct Awaited {
    pub runtime: Pointer,
    pub context: Pointer,
    pub value: RawValue,
}

/// The state of a promise has been asked for.
#[derive(Debug, PartialEq, Eq)]
pub struct PromiseStatePending {
    pub awaited: Awaited,
}

/// A job is being run, because a promise is not settled.
#[derive(Debug, PartialEq, Eq)]
pub struct PromiseJobPending {
    pub awaited: Awaited,
}

/// The value of a fulfilled promise has been asked for.
#[derive(Debug, PartialEq, Eq)]
pub struct PromiseValuePending {
    pub awaited: Awaited,
}

/// The reason of a rejected promise has been asked for.
#[derive(Debug, PartialEq, Eq)]
pub struct PromiseReasonPending {
    pub awaited: Awaited,
}

/// What the search for a final value waits for.
#[derive(Debug, PartialEq, Eq)]
pub enum ResolutionPending {
    Exception(FailurePending),
    ExceptionText(FailureTextPending),
    State(PromiseStatePending),
    Job(PromiseJobPending),
    Value(PromiseValuePending),
    Reason(PromiseReasonPending),
}

/// A step in the search for a final value.
pub type Resolution = Step<ResolutionPending, Result<OwnedValueRef, ExecutionError>>;

/// Whether a step makes these calls and then waits in this state.
pub open spec fn goes_on(
    step: Resolution,
    calls: Seq<SpecCall>,
    pending: ResolutionPending,
) -> bool {
    &&& step.issued() == calls
    &&& step.next == Next::<_, Result<OwnedValueRef, ExecutionError>>::Await(pending)
}

/// Whether a step makes these calls and ends with this value.
pub open spec fn ends_with(
    step: Resolution,
    calls: Seq<SpecCall>,
    context: Pointer,
    value: RawValue,
) -> bool {
    &&& step.issued() == calls
    &&& step.next == Next::<ResolutionPending, _>::Return(
        Ok::<_, ExecutionError>(OwnedValueRef { context, value }),
    )
}

impl Awaited {
    /// The call that asks for the state of the promise.
    pub open spec fn state_call(self) -> SpecCall {
        SpecCall::PromiseState { context: self.context, promise: self.value }
    }

    /// The call that asks for what the promise holds.
    pub open spec fn result_call(self) -> SpecCall {
        SpecCall::PromiseResult { context: self.context, promise: self.value }
    }

    /// The call that runs a job.
    pub open spec fn job_call(self) -> SpecCall {
        SpecCall::ExecutePendingJob { runtime: self.runtime }
    }

    /// The call that gives the reference back.
    pub open spec fn free_call(self) -> SpecCall {
        SpecCall::FreeValue { context: self.context, value: self.value }
    }

    fn ask_state(self) -> (call: Call)
        ensures
            call@ == self.state_call(),
    {
        Call::PromiseState { context: self.context, promise: self.value }
    }

    fn ask_result(self) -> (call: Call)
        ensures
            call@ == self.result_call(),
    {
        Call::PromiseResult { context: self.context, promise: self.value }
    }

    fn free(self) -> (call: Call)
        ensures
            call@ == self.free_call(),
    {
        Call::FreeValue { context: self.context, value: self.value }
    }

    /// The value itself is the final one.
    fn itself(self) -> (result: Result<OwnedValueRef, ExecutionError>)
        ensures
            result == Ok::<_, ExecutionError>(
                OwnedValueRef { context: self.context, value: self.value },
            ),
    {
        Ok(OwnedValueRef { context: self.context, value: self.value })
    }
}

/// How the search for a final value begins. An exception is looked up. Of an object the engine is
/// asked whether it is a promise, and in what state; none of its properties is read. Any other value
/// is its own final value. The value that stands for an exception is not counted, so there is
/// nothing to give back.
pub open spec fn resolve_step(step: Resolution, awaited: Awaited) -> bool {
    let context = awaited.context;
    let value = awaited.value;
    if value.tag == TAG_EXCEPTION {
        goes_on(
            step,
            seq![SpecCall::GetException { context }],
            ResolutionPending::Exception(FailurePending::of(context, Fallback::UnknownException)),
        )
    } else if value.tag == TAG_OBJECT {
        goes_on(
            step,
            seq![awaited.state_call()],
            ResolutionPending::State(PromiseStatePending { awaited }),
        )
    } else {
        ends_with(step, Seq::<SpecCall>::empty(), context, value)
    }
}

/// Starts the search for the final value of a value that the engine returned.
pub(crate) fn resolve(awaited: Awaited) -> (step: Resolution)
    ensures
        resolve_step(step, awaited),
{
    if awaited.value.is_exception() {
        let context: Pointer = awaited.context;
        Step {
            calls: one(Call::GetException { context }),
            next: Next::Await(
                ResolutionPending::Exception(
                    FailurePending::in_context(context, Fallback::UnknownException),
                ),
            ),
        }
    } else if awaited.value.is_object() {
        Step {
            calls: one(awaited.ask_state()),
            next: Next::Await(ResolutionPending::State(PromiseStatePending { awaited })),
        }
    } else {
        Step { calls: none(), next: Next::Return(awaited.itself()) }
    }
}

impl PromiseStatePending {
    /// Takes the state of the object. An object that is not a promise is the final value. A promise
    /// that is not settled has a job run for it; of one that is settled, what it holds is asked
    /// for.
    pub fn known(self, state: PromiseState) -> (step: Resolution)
        ensures
            match state {
                PromiseState::Pending => goes_on(
                    step,
                    seq![self.awaited.job_call()],
                    ResolutionPending::Job(PromiseJobPending { awaited: self.awaited }),
                ),
                PromiseState::Fulfilled => goes_on(
                    step,
                    seq![self.awaited.result_call()],
                    ResolutionPending::Value(PromiseValuePending { awaited: self.awaited }),
                ),
                PromiseState::Rejected => goes_on(
                    step,
                    seq![self.awaited.result_call()],
                    ResolutionPending::Reason(PromiseReasonPending { awaited: self.awaited }),
                ),
                PromiseState::NoPromise => ends_with(
                    step,
                    Seq::<SpecCall>::empty(),
                    self.awaited.context,
                    self.awaited.value,
                ),
            },
    {
        let awaited: Awaited = self.awaited;
        match state {
            PromiseState::Pending => Step {
                calls: one(Call::ExecutePendingJob { runtime: awaited.runtime }),
                next: Next::Await(ResolutionPending::Job(PromiseJobPending { awaited })),
            },
            PromiseState::Fulfilled => Step {
                calls: one(awaited.ask_result()),
                next: Next::Await(ResolutionPending::Value(PromiseValuePending { awaited })),
            },
            PromiseState::Rejected => Step {
                calls: one(awaited.ask_result()),
                next: Next::Await(ResolutionPending::Reason(PromiseReasonPending { awaited })),
            },
            PromiseState::NoPromise => Step { calls: none(), next: Next::Return(awaited.itself()) },
        }
    }
}

impl PromiseJobPending {
    /// Takes the engine's status. After a job, the state of the promise is asked for again. Where
    /// no job was left, nothing can settle the promise any more, and it is the final value itself.
    /// Where the job failed, the promise is given back and the exception is looked up.
    pub fn done(self, status: i32) -> (step: Resolution)
        ensures
            if status < 0 {
                goes_on(
                    step,
                    seq![
                        self.awaited.free_call(),
                        SpecCall::GetException { context: self.awaited.context },
                    ],
                    ResolutionPending::Exception(
                        FailurePending::of(self.awaited.context, Fallback::UnknownException),
                    ),
                )
            } else if status == 0 {
                ends_with(
                    step,
                    Seq::<SpecCall>::empty(),
                    self.awaited.context,
                    self.awaited.value,
                )
            } else {
                goes_on(
                    step,
                    seq![self.awaited.state_call()],
                    ResolutionPending::State(PromiseStatePending { awaited: self.awaited }),
                )
            },
    {
        let awaited: Awaited = self.awaited;
        let context: Pointer = awaited.context;
        if status < 0 {
            Step {
                calls: two(awaited.free(), Call::GetException { context }),
                next: Next::Await(
                    ResolutionPending::Exception(
                        FailurePending::in_context(context, Fallback::UnknownException),
                    ),
                ),
            }
        } else if status == 0 {
            Step { calls: none(), next: Next::Return(awaited.itself()) }
        } else {
            Step {
                calls: one(awaited.ask_state()),
                next: Next::Await(ResolutionPending::State(PromiseStatePending { awaited })),
            }
        }
    }
}

impl PromiseValuePending {
    /// Takes the value of the promise, which is the final value. The promise is given back.
    pub fn obtained(self, raw: RawValue) -> (step: Resolution)
        ensures
            ends_with(step, seq![self.awaited.free_call()], self.awaited.context, raw),
    {
        Step {
            calls: one(self.awaited.free()),
            next: Next::Return(Ok(OwnedValueRef { context: self.awaited.context, value: raw })),
        }
    }
}

impl PromiseReasonPending {
    /// Takes the reason of the rejection, which becomes an error as an exception does. The promise
    /// is given back.
    pub fn obtained(self, raw: RawValue) -> (step: Resolution)
        ensures
            ({
                let context = self.awaited.context;
                if needs_text(raw) {
                    goes_on(
                        step,
                        seq![
                            self.awaited.free_call(),
                            SpecCall::Describe { context, value: raw },
                        ],
                        ResolutionPending::ExceptionText(
                            FailureTextPending {
                                lookup: ExceptionTextPending { context, value: raw },
                                fallback: Fallback::UnknownException,
                            },
                        ),
                    )
                } else {
                    &&& step.issued() == seq![
                        self.awaited.free_call(),
                        SpecCall::FreeValue { context, value: raw },
                    ]
                    &&& step.next matches Next::Return(Err(error)) && error@
                        == match immediate_error(raw) {
                        Some(error) => error,
                        None => exception_text(Fallback::UnknownException.spec_text()),
                    }
                }
            }),
    {
        let awaited: Awaited = self.awaited;
        let failure: FailurePending = FailurePending::in_context(
            awaited.context,
            Fallback::UnknownException,
        );
        let caught = failure.caught(raw);
        let mut calls: Vec<Call> = one(awaited.free());
        let mut rest: Vec<Call> = caught.calls;
        let ghost first = calls@;
        let ghost second = rest@;
        calls.append(&mut rest);
        assert(seen_calls(calls@) =~= seen_calls(first) + seen_calls(second));
        assert(seen_calls(calls@) =~= seq![awaited.free_call(), seen_calls(second)[0]]);
        Step {
            calls,
            next: match caught.next {
                Next::Await(pending) => Next::Await(ResolutionPending::ExceptionText(pending)),
                Next::Return(error) => Next::Return(Err(error)),
            },
        }
    }
}

} // verus!
