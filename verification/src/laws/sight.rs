//! How contracts see what the library hands out: calls, values and errors, each field by field.

use vstd::prelude::*;

use crate::call::{Asked, Call, CallOf, Finished, SpecCall, Step};
use crate::error::{
    seen, seen_value, ExecutionError, ExecutionErrorOf, NulErrorOf, SpecExecutionError,
    SpecValueError, ValueError, ValueErrorOf,
};
use crate::exception::{seen_found, seen_text};
use crate::value::{JsValue, JsValueOf, SpecJsValue};

verus! {

/// The calls of a step are seen one by one, in order, none left out.
pub proof fn law_step_calls<P, T>(step: Step<P, T>)
    ensures
        step.issued().len() == step.calls@.len(),
        forall|i: int|
            0 <= i < step.calls@.len() ==> #[trigger] step.issued()[i] == step.calls@[i]@,
{
}

/// The calls of a question are seen one by one, in order, none left out.
pub proof fn law_asked_calls<P>(asked: Asked<P>)
    ensures
        asked.issued().len() == asked.calls@.len(),
        forall|i: int|
            0 <= i < asked.calls@.len() ==> #[trigger] asked.issued()[i] == asked.calls@[i]@,
{
}

/// The last calls of an operation are seen one by one, in order, none left out.
pub proof fn law_finished_calls<T>(finished: Finished<T>)
    ensures
        finished.issued().len() == finished.calls@.len(),
        forall|i: int|
            0 <= i < finished.calls@.len() ==> #[trigger] finished.issued()[i]
                == finished.calls@[i]@,
{
}

/// A call is seen as the call that it is, with each of its arguments.
pub proof fn law_call_is_seen(call: Call)
    ensures
        match call {
            CallOf::NewRuntime => call@ == SpecCall::NewRuntime,
            CallOf::SetMemoryLimit { runtime, limit } => call@ == (SpecCall::SetMemoryLimit {
                runtime,
                limit,
            }),
            CallOf::NewContext { runtime } => call@ == (SpecCall::NewContext { runtime }),
            CallOf::FreeContext { context } => call@ == (SpecCall::FreeContext { context }),
            CallOf::FreeRuntime { runtime } => call@ == (SpecCall::FreeRuntime { runtime }),
            CallOf::SetModuleLoader { runtime, loader } => call@ == (SpecCall::SetModuleLoader {
                runtime,
                loader,
            }),
            CallOf::SetRejectionTracker { runtime, tracker } => call@
                == (SpecCall::SetRejectionTracker {
                runtime,
                tracker,
            }),
            CallOf::DropTracker { tracker } => call@ == (SpecCall::DropTracker { tracker }),
            CallOf::DupValue { context, value } => call@ == (SpecCall::DupValue { context, value }),
            CallOf::FreeValue { context, value } => call@ == (SpecCall::FreeValue {
                context,
                value,
            }),
            CallOf::FreeRuntimeValue { runtime, value } => call@ == (SpecCall::FreeRuntimeValue {
                runtime,
                value,
            }),
            CallOf::ReadRefCount { value } => call@ == (SpecCall::ReadRefCount { value }),
            CallOf::ToString { context, value } => call@ == (SpecCall::ToString { context, value }),
            CallOf::Decode { context, value } => call@ == (SpecCall::Decode { context, value }),
            CallOf::Encode { context, value } => call@ == (SpecCall::Encode {
                context,
                value: value@,
            }),
            CallOf::Describe { context, value } => call@ == (SpecCall::Describe { context, value }),
            CallOf::GetProperty { context, object, name } => call@ == (SpecCall::GetProperty {
                context,
                object,
                name: name@,
            }),
            CallOf::SetProperty { context, object, name, value } => call@
                == (SpecCall::SetProperty {
                context,
                object,
                name: name@,
                value,
            }),
            CallOf::GetGlobalObject { context } => call@ == (SpecCall::GetGlobalObject { context }),
            CallOf::GetException { context } => call@ == (SpecCall::GetException { context }),
            CallOf::Eval { context, code, length, filename, flags } => call@ == (SpecCall::Eval {
                context,
                code: code@,
                length,
                filename: filename@,
                flags,
            }),
            CallOf::NewFunction { context, closure, arguments } => call@ == (SpecCall::NewFunction {
                context,
                closure,
                arguments,
            }),
            CallOf::Throw { context, value } => call@ == (SpecCall::Throw { context, value }),
            CallOf::NewModule { context, name } => call@ == (SpecCall::NewModule {
                context,
                name: name@,
            }),
            CallOf::AddModuleExport { context, module, name } => call@
                == (SpecCall::AddModuleExport {
                context,
                module,
                name: name@,
            }),
            CallOf::SetModuleExport { context, module, name, value } => call@
                == (SpecCall::SetModuleExport {
                context,
                module,
                name: name@,
                value,
            }),
            CallOf::SetContextOpaque { context } => call@ == (SpecCall::SetContextOpaque {
                context,
            }),
            CallOf::GetModuleName { context, module } => call@ == (SpecCall::GetModuleName {
                context,
                module,
            }),
            CallOf::AtomToCString { context, atom } => call@ == (SpecCall::AtomToCString {
                context,
                atom,
            }),
            CallOf::FreeCString { context, text } => call@ == (SpecCall::FreeCString {
                context,
                text,
            }),
            CallOf::FreeAtom { context, atom } => call@ == (SpecCall::FreeAtom { context, atom }),
            CallOf::GetModuleNamespace { context, module } => call@
                == (SpecCall::GetModuleNamespace {
                context,
                module,
            }),
            CallOf::NewObject { context } => call@ == (SpecCall::NewObject { context }),
            CallOf::ExecutePendingJob { runtime } => call@ == (SpecCall::ExecutePendingJob {
                runtime,
            }),
            CallOf::PromiseState { context, promise } => call@ == (SpecCall::PromiseState {
                context,
                promise,
            }),
            CallOf::PromiseResult { context, promise } => call@ == (SpecCall::PromiseResult {
                context,
                promise,
            }),
            CallOf::SetImportMeta { context, function, use_realpath, is_main } => call@
                == (SpecCall::SetImportMeta {
                context,
                function,
                use_realpath,
                is_main,
            }),
            CallOf::Strdup { context, text } => call@ == (SpecCall::Strdup {
                context,
                text: text@,
            }),
            CallOf::Malloc { context, size } => call@ == (SpecCall::Malloc { context, size }),
            CallOf::WriteString { block, text } => call@ == (SpecCall::WriteString {
                block,
                text: text@,
            }),
            CallOf::LoadModule { loader, name } => call@ == (SpecCall::LoadModule {
                loader,
                name: name@,
            }),
            CallOf::ResolveModule { loader, base, name } => call@ == (SpecCall::ResolveModule {
                loader,
                base: base@,
                name: name@,
            }),
        },
{
}

/// A host value is seen as the value that it is.
pub proof fn law_value_is_seen(value: JsValue)
    ensures
        match value {
            JsValueOf::Undefined => value@ == SpecJsValue::Undefined,
            JsValueOf::Null => value@ == SpecJsValue::Null,
            JsValueOf::Bool(b) => value@ == SpecJsValue::Bool(b),
            JsValueOf::Int(i) => value@ == SpecJsValue::Int(i),
            JsValueOf::String(text) => value@ == SpecJsValue::String(text@),
            JsValueOf::Other(number) => value@ == SpecJsValue::Other(number),
        },
{
}

/// A conversion error is seen as the error that it is, and so is a result with one.
pub proof fn law_value_error_is_seen<T>(error: ValueError, value: T)
    ensures
        match error {
            ValueErrorOf::StringWithZeroBytes(nul) => error@
                == SpecValueError::StringWithZeroBytes(
                NulErrorOf { position: nul.position, bytes: nul.bytes@ },
            ),
            ValueErrorOf::Internal(text) => error@ == SpecValueError::Internal(text@),
            ValueErrorOf::UnexpectedType => error@ == SpecValueError::UnexpectedType,
            ValueErrorOf::Other(text) => error@ == SpecValueError::Other(text@),
        },
        seen_value(Err::<T, _>(error)) == Err::<T, _>(error@),
        seen_value(Ok::<T, ValueError>(value)) == Ok::<T, SpecValueError>(value),
{
}

/// An execution error is seen as the error that it is, and so is a result with one.
pub proof fn law_execution_error_is_seen<T>(error: ExecutionError, value: T, text: String)
    ensures
        match error {
            ExecutionErrorOf::Conversion(inner) => error@ == SpecExecutionError::Conversion(inner@),
            ExecutionErrorOf::Internal(text) => error@ == SpecExecutionError::Internal(text@),
            ExecutionErrorOf::Exception(thrown) => error@ == SpecExecutionError::Exception(thrown@),
            ExecutionErrorOf::OutOfMemory => error@ == SpecExecutionError::OutOfMemory,
        },
        seen(Err::<T, _>(error)) == Err::<T, _>(error@),
        seen(Ok::<T, ExecutionError>(value)) == Ok::<T, SpecExecutionError>(value),
        seen_text(Err::<String, _>(error)) == Err::<Seq<char>, _>(error@),
        seen_text(Ok::<_, ExecutionError>(text)) == Ok::<_, SpecExecutionError>(text@),
        seen_found(Some(error)) == Some(error@),
        seen_found(None) == None::<SpecExecutionError>,
{
}

} // verus!
