//! Calls from the engine into host functions.

use vstd::prelude::*;
use vstd::string::*;

use crate::call::{none, one, Call, Finished, Next, SpecCall, Step};
use crate::context::ContextWrapper;
use crate::error::{exception_text, seen, ExecutionError, SpecExecutionError, ValueError};
use crate::text::{concat3, decimal, decimal_text};
use crate::value::{JsValue, Pointer, RawValue, SpecJsValue, TAG_EXCEPTION};

verus! {

/// The arguments of a call are being converted.
#[derive(Debug, PartialEq, Eq)]
pub struct ArgumentsPending {
    pub context: Pointer,
    pub raw: Vec<RawValue>,
    /// The ones that are converted; the next has been asked for.
    pub converted: Vec<JsValue>,
}

/// All arguments are converted, and the host function can be called with them.
#[derive(Debug, PartialEq, Eq)]
pub struct Invocation {
    pub context: Pointer,
    pub args: Vec<JsValue>,
}

/// What became of the call of a host function.
#[derive(Debug, PartialEq, Eq)]
pub enum CallbackOutcome {
    /// It returned a value.
    Returned(JsValue),
    /// It returned an error of its own, by its text.
    Failed(String),
    /// The arguments or the result did not fit its types.
    Mismatch(ValueError),
}

/// The result of a host function is being converted.
#[derive(Debug, PartialEq, Eq)]
pub struct ResultPending;

/// The value of an exception is being converted.
#[derive(Debug, PartialEq, Eq)]
pub struct ThrowPending {
    pub context: Pointer,
}

/// The error for argument number `index`, which could not be converted.
pub open spec fn argument_error(index: nat, message: Seq<char>) -> SpecExecutionError {
    SpecExecutionError::Internal(
        "failed to deserialize arguments "@ + decimal(index)
            + " (zero-based) to JS value, "@ + message,
    )
}

/// The error for a result that could not be converted.
pub open spec fn result_error(message: Seq<char>) -> SpecExecutionError {
    SpecExecutionError::Internal("failed to serialize rust value to js value, "@ + message)
}

/// How a call goes on once its first arguments are converted: with the next one, or with the host
/// function.
pub open spec fn arguments_step(
    step: Step<ArgumentsPending, Result<Invocation, ExecutionError>>,
    context: Pointer,
    raw: Seq<RawValue>,
    converted: Seq<JsValue>,
) -> bool {
    if converted.len() < raw.len() {
        &&& step.issued() == seq![
            SpecCall::Decode { context, value: raw[converted.len() as int] },
        ]
        &&& step.next matches Next::Await(pending) && pending.context == context && pending.raw@
            == raw && pending.converted@ == converted
    } else {
        &&& step.issued() == Seq::<SpecCall>::empty()
        &&& step.next matches Next::Return(Ok(invocation)) && invocation.context == context
            && invocation.args@ == converted
    }
}

fn next_argument(context: Pointer, raw: Vec<RawValue>, converted: Vec<JsValue>) -> (step: Step<
    ArgumentsPending,
    Result<Invocation, ExecutionError>,
>)
    ensures
        arguments_step(step, context, raw@, converted@),
{
    let i: usize = converted.len();
    if i < raw.len() {
        Step {
            calls: one(Call::Decode { context, value: raw[i] }),
            next: Next::Await(ArgumentsPending { context, raw, converted }),
        }
    } else {
        Step { calls: none(), next: Next::Return(Ok(Invocation { context, args: converted })) }
    }
}

/// Starts a call of a host function: its arguments are converted one by one, in order.
pub fn exec_callback(context: Pointer, raw: Vec<RawValue>) -> (step: Step<
    ArgumentsPending,
    Result<Invocation, ExecutionError>,
>)
    ensures
        arguments_step(step, context, raw@, Seq::empty()),
{
    let converted: Vec<JsValue> = Vec::new();
    assert(converted@ =~= Seq::empty());
    next_argument(context, raw, converted)
}

impl ArgumentsPending {
    /// Takes the argument that was asked for, or the text of the error why it could not be
    /// converted. An error ends the call, whatever arguments follow.
    pub fn decoded(self, argument: Result<JsValue, String>) -> (step: Step<
        ArgumentsPending,
        Result<Invocation, ExecutionError>,
    >)
        ensures
            match argument {
                Ok(value) => arguments_step(
                    step,
                    self.context,
                    self.raw@,
                    self.converted@.push(value),
                ),
                Err(message) => {
                    &&& step.issued() == Seq::<SpecCall>::empty()
                    &&& step.next matches Next::Return(Err(error)) && error@ == argument_error(
                        self.converted@.len(),
                        message@,
                    )
                },
            },
    {
        match argument {
            Ok(value) => {
                let mut converted: Vec<JsValue> = self.converted;
                converted.push(value);
                next_argument(self.context, self.raw, converted)
            },
            Err(message) => {
                let number: String = decimal_text(self.converted.len());
                let mut text: String = concat3(
                    "failed to deserialize arguments ",
                    number.as_str(),
                    " (zero-based) to JS value, ",
                );
                text.append(message.as_str());
                Step { calls: none(), next: Next::Return(Err(ExecutionError::Internal(text))) }
            },
        }
    }
}

impl Invocation {
    /// Takes what became of the call. A value is converted for the engine; anything else is an
    /// error.
    pub fn completed(self, outcome: CallbackOutcome) -> (step: Step<
        ResultPending,
        Result<RawValue, ExecutionError>,
    >)
        ensures
            match outcome {
                CallbackOutcome::Returned(value) => {
                    &&& step.issued() == seq![
                        SpecCall::Encode { context: self.context, value: value@ },
                    ]
                    &&& step.next is Await
                },
                CallbackOutcome::Failed(text) => {
                    &&& step.issued() == Seq::<SpecCall>::empty()
                    &&& step.next matches Next::Return(result) && seen(result) == Err::<
                        RawValue,
                        _,
                    >(exception_text(text@))
                },
                CallbackOutcome::Mismatch(error) => {
                    &&& step.issued() == Seq::<SpecCall>::empty()
                    &&& step.next matches Next::Return(result) && seen(result) == Err::<
                        RawValue,
                        _,
                    >(SpecExecutionError::Conversion(error@))
                },
            },
    {
        let error: ExecutionError = match outcome {
            CallbackOutcome::Returned(value) => {
                return Step {
                    calls: one(Call::Encode { context: self.context, value }),
                    next: Next::Await(ResultPending),
                };
            },
            CallbackOutcome::Failed(text) => ExecutionError::Exception(JsValue::String(text)),
            CallbackOutcome::Mismatch(error) => ExecutionError::Conversion(error),
        };
        Step { calls: none(), next: Next::Return(Err(error)) }
    }
}

impl ResultPending {
    /// Takes the converted result, or the text of the error why it could not be converted.
    pub fn encoded(self, value: Result<RawValue, String>) -> (result: Result<
        RawValue,
        ExecutionError,
    >)
        ensures
            seen(result) == match value {
                Ok(value) => Ok(value),
                Err(message) => Err(result_error(message@)),
            },
    {
        match value {
            Ok(value) => Ok(value),
            Err(message) => {
                let mut text: String =
                    "failed to serialize rust value to js value, ".to_owned();
                text.append(message.as_str());
                Err(ExecutionError::Internal(text))
            },
        }
    }
}

/// Takes what a call came to; nothing where something in it panicked, which is an error.
pub fn caught(ended: Option<Result<RawValue, ExecutionError>>) -> (result: Result<
    RawValue,
    ExecutionError,
>)
    ensures
        match ended {
            Some(ended) => result == ended,
            None => seen(result) == Err::<RawValue, _>(
                SpecExecutionError::Internal("Callback panicked!"@),
            ),
        },
{
    match ended {
        Some(result) => result,
        None => Err(ExecutionError::Internal("Callback panicked!".to_owned())),
    }
}

/// The value that the engine is to throw for an error in the host function `name`. `shown` is the
/// error as it is shown.
pub open spec fn thrown_value(
    name: Seq<char>,
    error: SpecExecutionError,
    shown: Seq<char>,
) -> SpecJsValue {
    match error {
        SpecExecutionError::Exception(value) => value,
        _ => SpecJsValue::String("Failed to call ["@ + name + "], "@ + shown),
    }
}

/// A host function, as the closure behind it knows it: the context that it was made for, and its
/// name.
#[derive(Debug, PartialEq, Eq)]
pub struct HostFunction {
    pub context: Pointer,
    pub name: String,
}

impl HostFunction {
    /// The host function of that name, for functions made in `context`.
    pub fn new(context: &ContextWrapper, name: &str) -> (function: HostFunction)
        ensures
            function.context == context.context,
            function.name@ == name@,
    {
        HostFunction { context: context.context, name: name.to_owned() }
    }

    /// Starts a call of the function.
    pub fn call(&self, raw: Vec<RawValue>) -> (step: Step<
        ArgumentsPending,
        Result<Invocation, ExecutionError>,
    >)
        ensures
            arguments_step(step, self.context, raw@, Seq::empty()),
    {
        exec_callback(self.context, raw)
    }

    /// Answers the engine's call of the function: with the result, or by throwing the error.
    /// `shown` is the error as it is shown; it is not read where there is none.
    pub fn reply(&self, result: Result<RawValue, ExecutionError>, shown: &str) -> (step: Step<
        ThrowPending,
        RawValue,
    >)
        ensures
            match result {
                Ok(value) => {
                    &&& step.issued() == Seq::<SpecCall>::empty()
                    &&& step.next == Next::<ThrowPending, _>::Return(value)
                },
                Err(error) => {
                    &&& step.issued() == seq![
                        SpecCall::Encode {
                            context: self.context,
                            value: thrown_value(self.name@, error@, shown@),
                        },
                    ]
                    &&& step.next == Next::<_, RawValue>::Await(
                        ThrowPending { context: self.context },
                    )
                },
            },
    {
        match result {
            Ok(value) => Step { calls: none(), next: Next::Return(value) },
            Err(error) => {
                let value: JsValue = match error {
                    ExecutionError::Exception(value) => value,
                    _ => {
                        let mut text: String = concat3(
                            "Failed to call [",
                            self.name.as_str(),
                            "], ",
                        );
                        text.append(shown);
                        JsValue::String(text)
                    },
                };
                Step {
                    calls: one(Call::Encode { context: self.context, value }),
                    next: Next::Await(ThrowPending { context: self.context }),
                }
            },
        }
    }
}

impl ThrowPending {
    /// Takes the value to throw, and throws it.
    pub fn encoded(self, value: RawValue) -> (finished: Finished<RawValue>)
        ensures
            finished.issued() == seq![SpecCall::Throw { context: self.context, value }],
            finished.result == (RawValue { tag: TAG_EXCEPTION, payload: 0 }),
    {
        Finished {
            calls: one(Call::Throw { context: self.context, value }),
            result: RawValue::exception(),
        }
    }
}

} // verus!
