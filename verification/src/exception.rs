//! The exception that the engine has pending, as an error.

use vstd::prelude::*;
use vstd::string::*;

use crate::call::{none, one, Call, Finished, Next, SpecCall, Step};
use crate::error::{exception_text, ExecutionError, SpecExecutionError};
use crate::text::{contains_text, occurs_in};
use crate::value::{JsValue, Pointer, RawValue, TAG_EXCEPTION, TAG_NULL};

verus! {

/// The pending exception has been asked for.
#[derive(Debug, PartialEq, Eq)]
pub struct ExceptionPending {
    pub context: Pointer,
}

/// The text of an exception has been asked for.
#[derive(Debug, PartialEq, Eq)]
pub struct ExceptionTextPending {
    pub context: Pointer,
    pub value: RawValue,
}

/// The error for an exception, given the text of its value or why there is none.
pub open spec fn described_error(
    text: Result<Seq<char>, SpecExecutionError>,
) -> SpecExecutionError {
    match text {
        Ok(text) => if occurs_in("out of memory"@, text) {
            SpecExecutionError::OutOfMemory
        } else {
            exception_text(text)
        },
        Err(error) => error,
    }
}

/// A text result in contracts.
pub open spec fn seen_text(text: Result<String, ExecutionError>) -> Result<
    Seq<char>,
    SpecExecutionError,
> {
    match text {
        Ok(text) => Ok(text@),
        Err(error) => Err(error@),
    }
}

/// An optional error in contracts.
pub open spec fn seen_found(found: Option<ExecutionError>) -> Option<SpecExecutionError> {
    match found {
        Some(error) => Some(error@),
        None => None,
    }
}

/// The error for an exception whose value needs no text: none for null, an internal one where the
/// engine could not give the exception.
pub open spec fn immediate_error(value: RawValue) -> Option<SpecExecutionError> {
    if value.tag == TAG_NULL {
        None
    } else {
        Some(SpecExecutionError::Internal("Could get exception from runtime"@))
    }
}

/// Whether the value of an exception has to be turned into text.
pub open spec fn needs_text(value: RawValue) -> bool {
    value.tag != TAG_NULL && value.tag != TAG_EXCEPTION
}

impl ExceptionPending {
    /// Takes the pending exception: null where there is none.
    pub fn caught(self, value: RawValue) -> (step: Step<
        ExceptionTextPending,
        Option<ExecutionError>,
    >)
        ensures
            if needs_text(value) {
                &&& step.issued() == seq![SpecCall::Describe { context: self.context, value }]
                &&& step.next == Next::<_, Option<ExecutionError>>::Await(
                    ExceptionTextPending { context: self.context, value },
                )
            } else {
                &&& step.issued() == seq![SpecCall::FreeValue { context: self.context, value }]
                &&& step.next matches Next::Return(found) && seen_found(found) == immediate_error(
                    value,
                )
            },
    {
        let context: Pointer = self.context;
        if value.tag == TAG_NULL {
            Step { calls: one(Call::FreeValue { context, value }), next: Next::Return(None) }
        } else if value.is_exception() {
            Step {
                calls: one(Call::FreeValue { context, value }),
                next: Next::Return(
                    Some(ExecutionError::Internal("Could get exception from runtime".to_owned())),
                ),
            }
        } else {
            Step {
                calls: one(Call::Describe { context, value }),
                next: Next::Await(ExceptionTextPending { context, value }),
            }
        }
    }
}

impl ExceptionTextPending {
    /// Takes the text of the exception, and gives its value back.
    pub fn described(self, text: Result<String, ExecutionError>) -> (finished: Finished<
        Option<ExecutionError>,
    >)
        ensures
            finished.issued() == seq![
                SpecCall::FreeValue { context: self.context, value: self.value },
            ],
            seen_found(finished.result) == Some(described_error(seen_text(text))),
    {
        let error: ExecutionError = match text {
            Ok(text) => {
                if contains_text(text.as_str(), "out of memory") {
                    ExecutionError::OutOfMemory
                } else {
                    ExecutionError::Exception(JsValue::String(text))
                }
            },
            Err(error) => error,
        };
        Finished {
            calls: one(Call::FreeValue { context: self.context, value: self.value }),
            result: Some(error),
        }
    }
}

/// What a failure is reported as when the engine has no exception pending.
#[derive(Debug, Clone, Copy, PartialEq, Eq, Structural)]
pub enum Fallback {
    UnknownException,
    ModuleNamespace,
}

impl Fallback {
    /// The text of the exception that is reported.
    pub open spec fn spec_text(self) -> Seq<char> {
        match self {
            Fallback::UnknownException => "Unknown exception"@,
            Fallback::ModuleNamespace => "Failed to get module namespace"@,
        }
    }

    fn text(self) -> (text: String)
        ensures
            text@ == self.spec_text(),
    {
        match self {
            Fallback::UnknownException => "Unknown exception".to_owned(),
            Fallback::ModuleNamespace => "Failed to get module namespace".to_owned(),
        }
    }

    /// The error that was found, or the fallback.
    pub fn or_found(self, found: Option<ExecutionError>) -> (error: ExecutionError)
        ensures
            error@ == match found {
                Some(found) => found@,
                None => exception_text(self.spec_text()),
            },
    {
        match found {
            Some(error) => error,
            None => ExecutionError::Exception(JsValue::String(self.text())),
        }
    }
}

/// An operation has failed in the engine, and the exception has been asked for.
#[derive(Debug, PartialEq, Eq)]
pub struct FailurePending {
    pub lookup: ExceptionPending,
    pub fallback: Fallback,
}

/// An operation has failed in the engine, and the text of the exception has been asked for.
#[derive(Debug, PartialEq, Eq)]
pub struct FailureTextPending {
    pub lookup: ExceptionTextPending,
    pub fallback: Fallback,
}

impl FailurePending {
    /// The failure of an operation in `context`.
    pub open spec fn of(context: Pointer, fallback: Fallback) -> FailurePending {
        FailurePending { lookup: ExceptionPending { context }, fallback }
    }

    /// The failure of an operation in `context`.
    pub(crate) fn in_context(context: Pointer, fallback: Fallback) -> (pending: FailurePending)
        ensures
            pending == FailurePending::of(context, fallback),
    {
        FailurePending { lookup: ExceptionPending { context }, fallback }
    }

    /// Takes the pending exception.
    pub fn caught(self, value: RawValue) -> (step: Step<FailureTextPending, ExecutionError>)
        ensures
            if needs_text(value) {
                &&& step.issued() == seq![
                    SpecCall::Describe { context: self.lookup.context, value },
                ]
                &&& step.next == Next::<_, ExecutionError>::Await(
                    FailureTextPending {
                        lookup: ExceptionTextPending { context: self.lookup.context, value },
                        fallback: self.fallback,
                    },
                )
            } else {
                &&& step.issued() == seq![
                    SpecCall::FreeValue { context: self.lookup.context, value },
                ]
                &&& step.next matches Next::Return(error) && error@ == match immediate_error(
                    value,
                ) {
                    Some(error) => error,
                    None => exception_text(self.fallback.spec_text()),
                }
            },
    {
        let fallback: Fallback = self.fallback;
        let step: Step<ExceptionTextPending, Option<ExecutionError>> = self.lookup.caught(value);
        match step.next {
            Next::Await(lookup) => Step {
                calls: step.calls,
                next: Next::Await(FailureTextPending { lookup, fallback }),
            },
            Next::Return(found) => Step {
                calls: step.calls,
                next: Next::Return(fallback.or_found(found)),
            },
        }
    }
}

impl FailureTextPending {
    /// Takes the text of the exception.
    pub fn described(self, text: Result<String, ExecutionError>) -> (finished: Finished<
        ExecutionError,
    >)
        ensures
            finished.issued() == seq![
                SpecCall::FreeValue {
                    context: self.lookup.context,
                    value: self.lookup.value,
                },
            ],
            finished.result@ == described_error(seen_text(text)),
    {
        let fallback: Fallback = self.fallback;
        let finished: Finished<Option<ExecutionError>> = self.lookup.described(text);
        Finished { calls: finished.calls, result: fallback.or_found(finished.result) }
    }
}

/// Starts to report a failure: asks for the exception.
pub(crate) fn fail<T>(context: Pointer, fallback: Fallback) -> (step: Step<FailurePending, T>)
    ensures
        step.issued() == seq![SpecCall::GetException { context }],
        step.next == Next::<_, T>::Await(FailurePending::of(context, fallback)),
{
    Step {
        calls: one(Call::GetException { context }),
        next: Next::Await(FailurePending::in_context(context, fallback)),
    }
}

} // verus!
