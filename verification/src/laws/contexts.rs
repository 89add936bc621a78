//! Contexts: how one is set up and taken down, and what code, functions, modules and promises in it
//! come to, call by call.

use vstd::prelude::*;
use vstd::utf8::encode_utf8;

use crate::call::{Asked, Call, Finished, LoaderRef, Next, SpecCall, Step};
use crate::context::{
    console_name, recorded_values, runtime_free_calls, AddCallbackPending, AddGlobalPending,
    AddSetPending, CallbackGlobalPending, CallbackPending, CallbackSetPending, ContextPending,
    ContextWrapper, EvalPending, ExecutePending, FunctionCall, GlobalPending, JobPending,
    ModuleNamespacePending, ModulePending, ResetPending, RuntimePending, SerializePending,
    SourcePending,
};
use crate::error::{
    seen, ContextError, ExecutionError, NulErrorOf, SpecExecutionError, SpecValueError, ValueError,
};
use crate::exception::{FailurePending, FailureTextPending, Fallback};
use crate::laws::names::{lemma_clean, lemma_zero_at};
use crate::loader::LoadError;
use crate::module_builder::free_calls;
use crate::object_ref::OwnedObjectRef;
use crate::resolve::{
    PromiseJobPending, PromiseReasonPending, PromiseState, PromiseStatePending,
    PromiseValuePending, Resolution, ResolutionPending,
};
use crate::value::{JsValue, Pointer, RawValue, SpecJsValue};
use crate::value_ref::OwnedValueRef;

verus! {

/// A context is set up in a runtime of its own, whose memory is limited, where there is a limit,
/// before the context is asked for. It starts with no functions, no modules, no tracker, and the
/// loader that knows no module. Where there is no context, the runtime is freed.
pub proof fn law_context_is_set_up(
    memory_limit: Option<usize>,
    asked: Asked<RuntimePending>,
    runtime: Pointer,
    step: Step<ContextPending, Result<ContextWrapper, ContextError>>,
    context: Pointer,
    finished: Finished<Result<ContextWrapper, ContextError>>,
)
    requires
        call_ensures(ContextWrapper::new, (memory_limit,), asked),
        call_ensures(RuntimePending::created, (asked.pending, runtime), step),
        step.next matches Next::Await(pending) ==> call_ensures(
            ContextPending::created,
            (pending, context),
            finished,
        ),
    ensures
        asked.issued() == seq![SpecCall::NewRuntime],
        runtime == 0 ==> step.issued().len() == 0 && step.next == Next::<ContextPending, _>::Return(
            Err::<ContextWrapper, _>(ContextError::RuntimeCreationFailed),
        ),
        runtime != 0 ==> step.next is Await && match memory_limit {
            Some(limit) => step.issued() == seq![
                SpecCall::SetMemoryLimit { runtime, limit },
                SpecCall::NewContext { runtime },
            ],
            None => step.issued() == seq![SpecCall::NewContext { runtime }],
        },
        runtime != 0 && context == 0 ==> finished.issued() == seq![
            SpecCall::FreeRuntime { runtime },
        ] && finished.result == Err::<ContextWrapper, _>(ContextError::ContextCreationFailed),
        runtime != 0 && context != 0 ==> {
            &&& finished.issued() == seq![
                SpecCall::SetModuleLoader { runtime, loader: LoaderRef::Noop },
            ]
            &&& finished.result matches Ok(wrapper) && wrapper.runtime == runtime
                && wrapper.context == context && wrapper.callbacks@.len() == 0
                && wrapper.module_loader == Some(LoaderRef::Noop)
                && wrapper.rejection_tracker is None && wrapper.native_modules@ == Map::<
                Seq<char>,
                Pointer,
            >::empty() && wrapper.module_exports is None
        },
{
}

/// Taking down a context drops the tracker, gives back each export in order, frees the context and
/// then the runtime, and does nothing else.
pub proof fn law_context_is_taken_down(wrapper: ContextWrapper, calls: Vec<Call>)
    requires
        call_ensures(ContextWrapper::teardown, (wrapper,), calls),
    ensures
        ({
            let t: int = if wrapper.rejection_tracker is Some {
                1
            } else {
                0
            };
            let data = match wrapper.module_exports {
                Some(data) => data@,
                None => Seq::empty(),
            };
            let n = data.len() as int;
            &&& calls@.len() == t + n + 2
            &&& wrapper.rejection_tracker matches Some(tracker) ==> calls@[0]@
                == (SpecCall::DropTracker { tracker })
            &&& forall|i: int|
                #![trigger data[i]]
                0 <= i < n ==> calls@[t + i]@ == (SpecCall::FreeValue {
                    context: wrapper.context,
                    value: data[i].2,
                })
            &&& calls@[t + n]@ == (SpecCall::FreeContext { context: wrapper.context })
            &&& calls@[t + n + 1]@ == (SpecCall::FreeRuntime { runtime: wrapper.runtime })
        }),
{
    let seen = crate::call::seen_calls(calls@);
    let data = wrapper.export_data();
    let frees = free_calls(wrapper.context, recorded_values(data));
    let tracker = wrapper.tracker_calls();
    let t = tracker.len() as int;
    let n = data.len() as int;
    assert(seen.len() == calls@.len());
    assert(frees.len() == n);
    assert forall|i: int| 0 <= i < calls@.len() implies seen[i] == (#[trigger] calls@[i])@ by {}
    assert forall|i: int|
        #![trigger data[i]]
        0 <= i < n implies calls@[t + i]@ == (SpecCall::FreeValue {
        context: wrapper.context,
        value: data[i].2,
    }) by {
        assert(seen[t + i] == frees[i]);
    }
}

/// A reset frees the old context and then asks for another in the same runtime. With it, the
/// functions are let go and all else is kept. Without it, the tracker is dropped, each export is
/// given back in order by way of the runtime, and the runtime is freed.
pub proof fn law_context_is_reset(
    wrapper: ContextWrapper,
    asked: Asked<ResetPending>,
    context: Pointer,
    finished: Finished<Result<ContextWrapper, ContextError>>,
)
    requires
        call_ensures(ContextWrapper::reset, (wrapper,), asked),
        call_ensures(ResetPending::created, (asked.pending, context), finished),
    ensures
        asked.issued() == seq![
            SpecCall::FreeContext { context: wrapper.context },
            SpecCall::NewContext { runtime: wrapper.runtime },
        ],
        context != 0 ==> finished.issued().len() == 0 && (finished.result matches Ok(after)
            && after.context == context && after.runtime == wrapper.runtime
            && after.callbacks@.len() == 0 && after.module_loader == wrapper.module_loader
            && after.rejection_tracker == wrapper.rejection_tracker && after.native_modules
            == wrapper.native_modules && after.module_exports == wrapper.module_exports),
        context == 0 ==> {
            let t: int = if wrapper.rejection_tracker is Some {
                1
            } else {
                0
            };
            let data = match wrapper.module_exports {
                Some(data) => data@,
                None => Seq::empty(),
            };
            let n = data.len() as int;
            &&& finished.result == Err::<ContextWrapper, _>(ContextError::ContextCreationFailed)
            &&& finished.issued().len() == t + n + 1
            &&& wrapper.rejection_tracker matches Some(tracker) ==> finished.issued()[0]
                == (SpecCall::DropTracker { tracker })
            &&& forall|i: int|
                #![trigger data[i]]
                0 <= i < n ==> finished.issued()[t + i] == (SpecCall::FreeRuntimeValue {
                    runtime: wrapper.runtime,
                    value: data[i].2,
                })
            &&& finished.issued()[t + n] == (SpecCall::FreeRuntime { runtime: wrapper.runtime })
        },
{
    if context == 0 {
        let data = wrapper.export_data();
        let frees = runtime_free_calls(wrapper.runtime, recorded_values(data));
        let t = wrapper.tracker_calls().len() as int;
        assert(frees.len() == data.len());
        assert forall|i: int|
            #![trigger data[i]]
            0 <= i < data.len() implies finished.issued()[t + i] == (SpecCall::FreeRuntimeValue {
            runtime: wrapper.runtime,
            value: data[i].2,
        }) by {
            assert(finished.issued()[t + i] == frees[i]);
        }
    }
}

/// A tracker or a loader that is set takes the place of the one before, is made known to the
/// runtime, and changes nothing else.
pub proof fn law_tracker_and_loader_are_set(
    watching: &mut ContextWrapper,
    tracker: u64,
    track: Call,
    loading: &mut ContextWrapper,
    loader: LoaderRef,
    load: Call,
)
    requires
        call_ensures(
            ContextWrapper::set_host_promise_rejection_tracker,
            (watching, tracker),
            track,
        ),
        call_ensures(ContextWrapper::set_module_loader, (loading, loader), load),
    ensures
        track@ == (SpecCall::SetRejectionTracker { runtime: old(watching).runtime, tracker }),
        *final(watching) == (ContextWrapper { rejection_tracker: Some(tracker), ..*old(watching) }),
        load@ == (SpecCall::SetModuleLoader { runtime: old(loading).runtime, loader }),
        *final(loading) == (ContextWrapper { module_loader: Some(loader), ..*old(loading) }),
{
}

/// Code is handed to the engine whole: all of its bytes, their number, all bytes of the file name,
/// and the flags that were given.
pub proof fn law_code_is_evaluated_whole(
    wrapper: ContextWrapper,
    code: &str,
    eval_type: u32,
    filename: &str,
    step: Step<EvalPending, Result<OwnedValueRef, ExecutionError>>,
)
    requires
        !encode_utf8(code@).contains(0u8),
        !encode_utf8(filename@).contains(0u8),
        encode_utf8(code@).len() <= usize::MAX,
        call_ensures(ContextWrapper::eval, (&wrapper, code, eval_type, filename), step),
    ensures
        step.issued().len() == 1,
        step.issued()[0] matches SpecCall::Eval {
            context,
            code: bytes,
            length,
            filename: name,
            flags,
        } && context == wrapper.context && bytes == encode_utf8(code@) && length == encode_utf8(
            code@,
        ).len() && name == encode_utf8(filename@) && flags == eval_type as i32,
        step.next matches Next::Await(pending) && pending.runtime == wrapper.runtime
            && pending.context == wrapper.context,
{
    lemma_clean(encode_utf8(code@));
    lemma_clean(encode_utf8(filename@));
}

/// A zero byte in the file name, or else in the code, is refused, with the position of the first
/// one and the bytes that hold it; the engine is not asked.
pub proof fn law_code_is_refused(
    wrapper: ContextWrapper,
    code: &str,
    eval_type: u32,
    filename: &str,
    p: usize,
    step: Step<EvalPending, Result<OwnedValueRef, ExecutionError>>,
)
    requires
        call_ensures(ContextWrapper::eval, (&wrapper, code, eval_type, filename), step),
        ({
            let bytes = if encode_utf8(filename@).contains(0u8) {
                encode_utf8(filename@)
            } else {
                encode_utf8(code@)
            };
            p < bytes.len() && bytes[p as int] == 0 && !bytes.take(p as int).contains(0u8)
        }),
    ensures
        step.issued().len() == 0,
        step.next matches Next::Return(result) && seen(result) == Err::<OwnedValueRef, _>(
            SpecExecutionError::Conversion(
                SpecValueError::StringWithZeroBytes(
                    NulErrorOf {
                        position: p,
                        bytes: if encode_utf8(filename@).contains(0u8) {
                            encode_utf8(filename@)
                        } else {
                            encode_utf8(code@)
                        },
                    },
                ),
            ),
        ),
{
    if encode_utf8(filename@).contains(0u8) {
        lemma_zero_at(encode_utf8(filename@), p);
    } else {
        lemma_clean(encode_utf8(filename@));
        lemma_zero_at(encode_utf8(code@), p);
    }
}

/// A native module is run by way of its namespace, which is given back; an exception there is
/// looked up.
pub proof fn law_native_module_runs(
    wrapper: ContextWrapper,
    name: &str,
    step: Step<ExecutePending, Result<(), ExecutionError>>,
    namespace: RawValue,
    end: Step<FailurePending, Result<(), ExecutionError>>,
)
    requires
        wrapper.native_modules@.contains_key(name@),
        call_ensures(ContextWrapper::execute_module, (&wrapper, name), step),
        step.next matches Next::Await(ExecutePending::Namespace(pending)) ==> call_ensures(
            ModuleNamespacePending::obtained,
            (pending, namespace),
            end,
        ),
    ensures
        step.issued() == seq![
            SpecCall::GetModuleNamespace {
                context: wrapper.context,
                module: wrapper.native_modules@[name@],
            },
        ],
        namespace.tag != 6 ==> end.issued() == seq![
            SpecCall::FreeValue { context: wrapper.context, value: namespace },
        ] && end.next == Next::<FailurePending, _>::Return(Ok::<(), ExecutionError>(())),
        namespace.tag == 6 ==> end.issued() == seq![
            SpecCall::GetException { context: wrapper.context },
        ] && (end.next matches Next::Await(failure) && failure.lookup.context == wrapper.context
            && failure.fallback == Fallback::ModuleNamespace),
{
}

/// A module that is not native is loaded by its name, and what comes back is evaluated whole, as a
/// module, under that name. A loader's error is told, and so is it that there is no loader.
pub proof fn law_loaded_module_runs(
    wrapper: ContextWrapper,
    name: &str,
    step: Step<ExecutePending, Result<(), ExecutionError>>,
    code: String,
    run: Step<ModulePending, Result<(), ExecutionError>>,
    error: LoadError,
    failed: Step<ModulePending, Result<(), ExecutionError>>,
)
    requires
        !wrapper.native_modules@.contains_key(name@),
        !encode_utf8(code@).contains(0u8),
        !encode_utf8(name@).contains(0u8),
        encode_utf8(code@).len() <= usize::MAX,
        call_ensures(ContextWrapper::execute_module, (&wrapper, name), step),
        step.next matches Next::Await(ExecutePending::Source(pending)) ==> call_ensures(
            SourcePending::loaded,
            (pending, Ok(code)),
            run,
        ) && call_ensures(SourcePending::loaded, (pending, Err(error)), failed),
    ensures
        wrapper.module_loader is None ==> step.issued().len() == 0 && (
        step.next matches Next::Return(result) && seen(result) == Err::<(), _>(
            SpecExecutionError::Internal("Module loader is not set"@),
        )),
        wrapper.module_loader matches Some(loader) ==> {
            &&& step.issued() == seq![SpecCall::LoadModule { loader, name: name@ }]
            &&& run.issued().len() == 1
            &&& run.issued()[0] matches SpecCall::Eval {
                context,
                code: bytes,
                length,
                filename,
                flags,
            } && context == wrapper.context && bytes == encode_utf8(code@) && length
                == encode_utf8(code@).len() && filename == encode_utf8(name@) && flags == 1
            &&& run.next matches Next::Await(pending) && pending.runtime == wrapper.runtime
                && pending.context == wrapper.context
            &&& failed.issued().len() == 0
            &&& failed.next matches Next::Return(result) && seen(result) == Err::<(), _>(
                SpecExecutionError::Internal("Fail to load module:"@ + error.message@),
            )
        },
{
    lemma_clean(encode_utf8(code@));
    lemma_clean(encode_utf8(name@));
    assert(1u32 as i32 == 1i32);
}

/// A zero byte in the name of a loaded module, or else in its source, is refused.
pub proof fn law_loaded_module_is_refused(
    pending: SourcePending,
    code: String,
    p: usize,
    step: Step<ModulePending, Result<(), ExecutionError>>,
)
    requires
        call_ensures(SourcePending::loaded, (pending, Ok(code)), step),
        ({
            let bytes = if encode_utf8(pending.name@).contains(0u8) {
                encode_utf8(pending.name@)
            } else {
                encode_utf8(code@)
            };
            p < bytes.len() && bytes[p as int] == 0 && !bytes.take(p as int).contains(0u8)
        }),
    ensures
        step.issued().len() == 0,
        step.next matches Next::Return(result) && seen(result) == Err::<(), _>(
            SpecExecutionError::Conversion(
                SpecValueError::StringWithZeroBytes(
                    NulErrorOf {
                        position: p,
                        bytes: if encode_utf8(pending.name@).contains(0u8) {
                            encode_utf8(pending.name@)
                        } else {
                            encode_utf8(code@)
                        },
                    },
                ),
            ),
        ),
{
    if encode_utf8(pending.name@).contains(0u8) {
        lemma_zero_at(encode_utf8(pending.name@), p);
    } else {
        lemma_clean(encode_utf8(pending.name@));
        lemma_zero_at(encode_utf8(code@), p);
    }
}

/// However a value comes about, by code, by a function, by a module or as it is, the search for its
/// final value is the same: an exception is looked up, an object is asked for its state as a
/// promise, and any other value is the result.
pub proof fn law_search_begins(
    wrapper: ContextWrapper,
    value: RawValue,
    step: Resolution,
    evaluation: EvalPending,
    evaluated: Resolution,
    call: FunctionCall,
    returned: Resolution,
    module: ModulePending,
    ran: Resolution,
)
    requires
        evaluation.runtime == wrapper.runtime && evaluation.context == wrapper.context,
        call.runtime == wrapper.runtime && call.context == wrapper.context,
        module.runtime == wrapper.runtime && module.context == wrapper.context,
        call_ensures(ContextWrapper::resolve_value, (&wrapper, value), step),
        call_ensures(EvalPending::evaluated, (evaluation, value), evaluated),
        call_ensures(FunctionCall::returned, (call, Ok(value)), returned),
        call_ensures(ModulePending::evaluated, (&module, value), ran),
    ensures
        value.tag == 6 ==> step.issued() == seq![
            SpecCall::GetException { context: wrapper.context },
        ] && (step.next matches Next::Await(ResolutionPending::Exception(failure))
            && failure.lookup.context == wrapper.context && failure.fallback
            == Fallback::UnknownException),
        value.tag == -1 ==> step.issued() == seq![
            SpecCall::PromiseState { context: wrapper.context, promise: value },
        ] && (step.next matches Next::Await(ResolutionPending::State(pending))
            && pending.awaited.runtime == wrapper.runtime && pending.awaited.context
            == wrapper.context && pending.awaited.value == value),
        value.tag != 6 && value.tag != -1 ==> step.issued().len() == 0 && (
        step.next matches Next::Return(Ok(owned)) && owned.context == wrapper.context
            && owned.value == value),
        evaluated.issued() == step.issued() && evaluated.next == step.next,
        returned.issued() == step.issued() && returned.next == step.next,
        ran.issued() == step.issued() && ran.next == step.next,
{
}

/// What the state of an object leads to: one that is no promise is the result, an unsettled promise
/// has one job run, and a settled one is asked for what it holds.
pub proof fn law_promise_state(
    pending: PromiseStatePending,
    foreign: Resolution,
    unsettled: Resolution,
    fulfilled: Resolution,
    rejected: Resolution,
)
    requires
        call_ensures(PromiseStatePending::known, (pending, PromiseState::NoPromise), foreign),
        call_ensures(PromiseStatePending::known, (pending, PromiseState::Pending), unsettled),
        call_ensures(PromiseStatePending::known, (pending, PromiseState::Fulfilled), fulfilled),
        call_ensures(PromiseStatePending::known, (pending, PromiseState::Rejected), rejected),
    ensures
        foreign.issued().len() == 0,
        foreign.next matches Next::Return(Ok(owned)) && owned.context == pending.awaited.context
            && owned.value == pending.awaited.value,
        unsettled.issued() == seq![
            SpecCall::ExecutePendingJob { runtime: pending.awaited.runtime },
        ],
        unsettled.next matches Next::Await(ResolutionPending::Job(next)) && next.awaited
            == pending.awaited,
        ({
            let ask = seq![
                SpecCall::PromiseResult {
                    context: pending.awaited.context,
                    promise: pending.awaited.value,
                },
            ];
            fulfilled.issued() == ask && rejected.issued() == ask
        }),
        fulfilled.next matches Next::Await(ResolutionPending::Value(next)) && next.awaited
            == pending.awaited,
        rejected.next matches Next::Await(ResolutionPending::Reason(next)) && next.awaited
            == pending.awaited,
{
}

/// What a job for a promise leads to: to the state of the promise again, to the promise itself
/// where no job was left, and to the exception, without the promise, where the job failed.
pub proof fn law_promise_job(pending: PromiseJobPending, status: i32, step: Resolution)
    requires
        call_ensures(PromiseJobPending::done, (pending, status), step),
    ensures
        ({
            let context = pending.awaited.context;
            let promise = pending.awaited.value;
            &&& status > 0 ==> step.issued() == seq![SpecCall::PromiseState { context, promise }]
                && (step.next matches Next::Await(ResolutionPending::State(next)) && next.awaited
                == pending.awaited)
            &&& status == 0 ==> step.issued().len() == 0 && (step.next matches Next::Return(
                Ok(owned),
            ) && owned.context == context && owned.value == promise)
            &&& status < 0 ==> step.issued() == seq![
                SpecCall::FreeValue { context, value: promise },
                SpecCall::GetException { context },
            ] && (step.next matches Next::Await(ResolutionPending::Exception(failure))
                && failure.lookup.context == context && failure.fallback
                == Fallback::UnknownException)
        }),
{
}

/// What a settled promise holds: its value is the result, and its reason an error, found as that of
/// a pending exception is. The promise is given back first.
pub proof fn law_promise_result(
    fulfilled: PromiseValuePending,
    value: RawValue,
    end: Resolution,
    rejected: PromiseReasonPending,
    reason: RawValue,
    failed: Resolution,
    failure: FailurePending,
    caught: Step<FailureTextPending, ExecutionError>,
)
    requires
        failure.lookup.context == rejected.awaited.context,
        failure.fallback == Fallback::UnknownException,
        call_ensures(PromiseValuePending::obtained, (fulfilled, value), end),
        call_ensures(PromiseReasonPending::obtained, (rejected, reason), failed),
        call_ensures(FailurePending::caught, (failure, reason), caught),
    ensures
        end.issued() == seq![
            SpecCall::FreeValue {
                context: fulfilled.awaited.context,
                value: fulfilled.awaited.value,
            },
        ],
        end.next matches Next::Return(Ok(owned)) && owned.context == fulfilled.awaited.context
            && owned.value == value,
        failed.issued() == seq![
            SpecCall::FreeValue {
                context: rejected.awaited.context,
                value: rejected.awaited.value,
            },
        ] + caught.issued(),
        match (failed.next, caught.next) {
            (Next::Await(ResolutionPending::ExceptionText(a)), Next::Await(b)) => a == b,
            (Next::Return(Err(a)), Next::Return(b)) => a@ == b@,
            _ => false,
        },
{
    assert(failed.issued() =~= seq![
        SpecCall::FreeValue { context: rejected.awaited.context, value: rejected.awaited.value },
    ] + caught.issued());
}

/// A called function's own error is the result.
pub proof fn law_call_error(call: FunctionCall, error: ExecutionError, step: Resolution)
    requires
        call_ensures(FunctionCall::returned, (call, Err(error)), step),
    ensures
        step.issued().len() == 0,
        step.next == Next::<ResolutionPending, _>::Return(Err::<OwnedValueRef, _>(error)),
{
}

/// A call is of the function and with the arguments that it was started with.
pub proof fn law_call_is_as_started(
    wrapper: ContextWrapper,
    function: RawValue,
    args: Vec<RawValue>,
    call: FunctionCall,
)
    requires
        call_ensures(ContextWrapper::call_function, (&wrapper, function, args), call),
    ensures
        call.runtime == wrapper.runtime && call.context == wrapper.context,
        call.function == function && call.args@ == args@,
{
}

/// Both ways to add a global function start with a function for the closure, with that number of
/// arguments; the closure is kept behind the others, and nothing else changes. So does the console,
/// under its name.
pub proof fn law_function_is_asked_for(
    creating: &mut ContextWrapper,
    adding: &mut ContextWrapper,
    logging: &mut ContextWrapper,
    name: &str,
    arguments: usize,
    closure: u64,
    created: Asked<CallbackPending>,
    added: Asked<AddCallbackPending>,
    console: Asked<AddCallbackPending>,
    console_text: &'static str,
)
    requires
        call_ensures(
            ContextWrapper::create_callback,
            (creating, name, arguments, closure),
            created,
        ),
        call_ensures(ContextWrapper::add_callback, (adding, name, arguments, closure), added),
        call_ensures(ContextWrapper::set_console, (logging, arguments, closure), console),
        call_ensures(console_name, (), console_text),
    ensures
        ({
            let call = |context: Pointer|
                seq![
                    SpecCall::NewFunction { context, closure, arguments: arguments as i32 },
                ];
            &&& created.issued() == call(old(creating).context)
            &&& added.issued() == call(old(adding).context)
            &&& console.issued() == call(old(logging).context)
        }),
        created.pending.context == old(creating).context && created.pending.name@ == name@,
        added.pending.context == old(adding).context && added.pending.name@ == name@,
        console.pending.context == old(logging).context && console.pending.name@
            == "__console_write"@ && console_text@ == "__console_write"@,
        final(creating).callbacks@ == old(creating).callbacks@.push(closure),
        final(adding).callbacks@ == old(adding).callbacks@.push(closure),
        final(logging).callbacks@ == old(logging).callbacks@.push(closure),
        *final(creating) == (ContextWrapper {
            callbacks: final(creating).callbacks,
            ..*old(creating)
        }),
        *final(adding) == (ContextWrapper { callbacks: final(adding).callbacks, ..*old(adding) }),
        *final(logging) == (ContextWrapper {
            callbacks: final(logging).callbacks,
            ..*old(logging)
        }),
{
}

/// A function that is created is set on the global object, under the very bytes of its name and
/// with a reference of its own, and is the result; the global object is given back.
pub proof fn law_created_function(
    pending: CallbackPending,
    function: RawValue,
    asked: Step<CallbackGlobalPending, Result<OwnedValueRef, ExecutionError>>,
    global: RawValue,
    set: Step<CallbackSetPending, Result<OwnedValueRef, ExecutionError>>,
    status: i32,
    finished: Finished<Result<OwnedValueRef, ExecutionError>>,
)
    requires
        global.tag == -1,
        !encode_utf8(pending.name@).contains(0u8),
        call_ensures(CallbackPending::created, (pending, function, Ok(())), asked),
        asked.next matches Next::Await(next) ==> call_ensures(
            CallbackGlobalPending::obtained,
            (next, global),
            set,
        ),
        set.next matches Next::Await(next) ==> call_ensures(
            CallbackSetPending::done,
            (next, status),
            finished,
        ),
    ensures
        ({
            let context = pending.context;
            &&& asked.issued() == seq![SpecCall::GetGlobalObject { context }]
            &&& set.issued() == seq![
                SpecCall::DupValue { context, value: function },
                SpecCall::SetProperty {
                    context,
                    object: global,
                    name: encode_utf8(pending.name@),
                    value: function,
                },
            ]
            &&& status >= 0 ==> finished.issued() == seq![
                SpecCall::FreeValue { context, value: global },
            ] && finished.result == Ok::<_, ExecutionError>(
                OwnedValueRef { context, value: function },
            )
            &&& status < 0 ==> finished.issued() == seq![
                SpecCall::FreeValue { context, value: global },
                SpecCall::FreeValue { context, value: function },
            ] && seen(finished.result) == Err::<OwnedValueRef, _>(
                SpecExecutionError::Exception(SpecJsValue::String("Could not set property"@)),
            )
        }),
{
    lemma_clean(encode_utf8(pending.name@));
}

/// A function that is added is set on the global object, under the very bytes of its name; the
/// global object is given back.
pub proof fn law_added_function(
    pending: AddCallbackPending,
    function: RawValue,
    asked: Step<AddGlobalPending, Result<(), ExecutionError>>,
    global: RawValue,
    set: Step<AddSetPending, Result<(), ExecutionError>>,
    status: i32,
    finished: Finished<Result<(), ExecutionError>>,
)
    requires
        global.tag == -1,
        !encode_utf8(pending.name@).contains(0u8),
        call_ensures(AddCallbackPending::created, (pending, function, Ok(())), asked),
        asked.next matches Next::Await(next) ==> call_ensures(
            AddGlobalPending::obtained,
            (next, global),
            set,
        ),
        set.next matches Next::Await(next) ==> call_ensures(
            AddSetPending::done,
            (next, status),
            finished,
        ),
    ensures
        ({
            let context = pending.context;
            &&& asked.issued() == seq![SpecCall::GetGlobalObject { context }]
            &&& set.issued() == seq![
                SpecCall::SetProperty {
                    context,
                    object: global,
                    name: encode_utf8(pending.name@),
                    value: function,
                },
            ]
            &&& finished.issued() == seq![SpecCall::FreeValue { context, value: global }]
            &&& status >= 0 ==> finished.result == Ok::<(), ExecutionError>(())
            &&& status < 0 ==> seen(finished.result) == Err::<(), _>(
                SpecExecutionError::Exception(SpecJsValue::String("Could not set property"@)),
            )
        }),
{
    lemma_clean(encode_utf8(pending.name@));
}

/// What is no function is given back, and is an error, whichever way it was to be added.
pub proof fn law_no_function(
    creating: CallbackPending,
    adding: AddCallbackPending,
    value: RawValue,
    error: ValueError,
    created: Step<CallbackGlobalPending, Result<OwnedValueRef, ExecutionError>>,
    added: Step<AddGlobalPending, Result<(), ExecutionError>>,
)
    requires
        call_ensures(CallbackPending::created, (creating, value, Err(error)), created),
        call_ensures(AddCallbackPending::created, (adding, value, Err(error)), added),
    ensures
        created.issued() == seq![SpecCall::FreeValue { context: creating.context, value }],
        created.next matches Next::Return(result) && seen(result) == Err::<OwnedValueRef, _>(
            SpecExecutionError::Conversion(error@),
        ),
        added.issued() == seq![SpecCall::FreeValue { context: adding.context, value }],
        added.next matches Next::Return(result) && seen(result) == Err::<(), _>(
            SpecExecutionError::Conversion(error@),
        ),
{
}

/// Without a global object, nothing is set: what came instead and the function are given back.
pub proof fn law_no_global_object(
    creating: CallbackGlobalPending,
    adding: AddGlobalPending,
    global: RawValue,
    created: Step<CallbackSetPending, Result<OwnedValueRef, ExecutionError>>,
    added: Step<AddSetPending, Result<(), ExecutionError>>,
)
    requires
        global.tag != -1,
        call_ensures(CallbackGlobalPending::obtained, (creating, global), created),
        call_ensures(AddGlobalPending::obtained, (adding, global), added),
    ensures
        created.issued() == seq![
            SpecCall::FreeValue { context: creating.context, value: global },
            SpecCall::FreeValue { context: creating.context, value: creating.function },
        ],
        added.issued() == seq![
            SpecCall::FreeValue { context: adding.context, value: global },
            SpecCall::FreeValue { context: adding.context, value: adding.function },
        ],
        ({
            let error = SpecExecutionError::Conversion(
                SpecValueError::Internal("Expected an object"@),
            );
            &&& created.next matches Next::Return(result) && seen(result) == Err::<
                OwnedValueRef,
                _,
            >(error)
            &&& added.next matches Next::Return(result) && seen(result) == Err::<(), _>(error)
        }),
{
}

/// A global's name with a zero byte is refused: nothing is set, and the function and the global
/// object are given back.
pub proof fn law_global_name_is_refused(
    creating: CallbackGlobalPending,
    adding: AddGlobalPending,
    global: RawValue,
    p: usize,
    created: Step<CallbackSetPending, Result<OwnedValueRef, ExecutionError>>,
    added: Step<AddSetPending, Result<(), ExecutionError>>,
)
    requires
        global.tag == -1,
        creating.name@ == adding.name@,
        p < encode_utf8(adding.name@).len(),
        encode_utf8(adding.name@)[p as int] == 0,
        !encode_utf8(adding.name@).take(p as int).contains(0u8),
        call_ensures(CallbackGlobalPending::obtained, (creating, global), created),
        call_ensures(AddGlobalPending::obtained, (adding, global), added),
    ensures
        created.issued() == seq![
            SpecCall::FreeValue { context: creating.context, value: creating.function },
            SpecCall::FreeValue { context: creating.context, value: global },
        ],
        added.issued() == seq![
            SpecCall::FreeValue { context: adding.context, value: adding.function },
            SpecCall::FreeValue { context: adding.context, value: global },
        ],
        ({
            let error = SpecExecutionError::Conversion(
                SpecValueError::StringWithZeroBytes(
                    NulErrorOf { position: p, bytes: encode_utf8(adding.name@) },
                ),
            );
            &&& created.next matches Next::Return(result) && seen(result) == Err::<
                OwnedValueRef,
                _,
            >(error)
            &&& added.next matches Next::Return(result) && seen(result) == Err::<(), _>(error)
        }),
{
    lemma_zero_at(encode_utf8(adding.name@), p);
}

/// The global object is taken as an object, or given back where it is none.
pub proof fn law_global_object(
    wrapper: ContextWrapper,
    asked: Asked<GlobalPending>,
    raw: RawValue,
    finished: Finished<Result<OwnedObjectRef, ExecutionError>>,
)
    requires
        call_ensures(ContextWrapper::global, (&wrapper,), asked),
        call_ensures(GlobalPending::obtained, (asked.pending, raw), finished),
    ensures
        asked.issued() == seq![SpecCall::GetGlobalObject { context: wrapper.context }],
        raw.tag == -1 ==> finished.issued().len() == 0 && (finished.result matches Ok(object)
            && object.value.context == wrapper.context && object.value.value == raw),
        raw.tag != -1 ==> finished.issued() == seq![
            SpecCall::FreeValue { context: wrapper.context, value: raw },
        ] && seen(finished.result) == Err::<OwnedObjectRef, _>(
            SpecExecutionError::Conversion(SpecValueError::Internal("Expected an object"@)),
        ),
{
}

/// Values are converted in the context: the value that is given is the one that is converted, and
/// what comes back is the result.
pub proof fn law_conversions(
    wrapper: ContextWrapper,
    value: JsValue,
    asked: Asked<SerializePending>,
    raw: RawValue,
    result: Result<OwnedValueRef, ExecutionError>,
    error: ValueError,
    failed: Result<OwnedValueRef, ExecutionError>,
    decode: Call,
)
    requires
        call_ensures(ContextWrapper::serialize_value, (&wrapper, value), asked),
        call_ensures(SerializePending::encoded, (asked.pending, Ok(raw)), result),
        call_ensures(SerializePending::encoded, (asked.pending, Err(error)), failed),
        call_ensures(ContextWrapper::to_value, (&wrapper, &raw), decode),
    ensures
        asked.issued() == seq![SpecCall::Encode { context: wrapper.context, value: value@ }],
        result == Ok::<_, ExecutionError>(OwnedValueRef { context: wrapper.context, value: raw }),
        seen(failed) == Err::<OwnedValueRef, _>(SpecExecutionError::Conversion(error@)),
        decode@ == (SpecCall::Decode { context: wrapper.context, value: raw }),
{
}

/// One job is run, and the status tells whether there was one; a failed job's exception is looked
/// up. An exception that is found is an error, and nothing found is none.
pub proof fn law_jobs(
    wrapper: ContextWrapper,
    asked: Asked<JobPending>,
    status: i32,
    step: Step<FailurePending, Result<bool, ExecutionError>>,
    found: Option<ExecutionError>,
    result: Result<(), ExecutionError>,
)
    requires
        call_ensures(ContextWrapper::execute_pending_job, (&wrapper,), asked),
        call_ensures(JobPending::done, (asked.pending, status), step),
        call_ensures(ContextWrapper::ensure_no_excpetion, (found,), result),
    ensures
        asked.issued() == seq![SpecCall::ExecutePendingJob { runtime: wrapper.runtime }],
        status == 0 ==> step.next == Next::<FailurePending, _>::Return(
            Ok::<bool, ExecutionError>(false),
        ),
        status > 0 ==> step.next == Next::<FailurePending, _>::Return(
            Ok::<bool, ExecutionError>(true),
        ),
        status >= 0 ==> step.issued().len() == 0,
        status < 0 ==> step.issued() == seq![
            SpecCall::GetException { context: wrapper.context },
        ] && (step.next matches Next::Await(failure) && failure.lookup.context == wrapper.context
            && failure.fallback == Fallback::UnknownException),
        found is None ==> result == Ok::<(), ExecutionError>(()),
        found matches Some(error) ==> seen(result) == Err::<(), _>(error@),
{
}

/// A module's final value is given back, and its error is the result.
pub proof fn law_module_end(
    pending: ModulePending,
    owned: OwnedValueRef,
    ran: Finished<Result<(), ExecutionError>>,
    error: ExecutionError,
    failed: Finished<Result<(), ExecutionError>>,
)
    requires
        call_ensures(ModulePending::resolved, (pending, Ok(owned)), ran),
        call_ensures(ModulePending::resolved, (pending, Err(error)), failed),
    ensures
        ran.issued() == seq![SpecCall::FreeValue { context: owned.context, value: owned.value }],
        ran.result == Ok::<(), ExecutionError>(()),
        failed.issued().len() == 0,
        failed.result == Err::<(), _>(error),
{
}

} // verus!
