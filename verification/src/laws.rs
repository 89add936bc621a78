//! What holds across operations: native modules, host functions and module names.
//!
//! The modules below state what each operation does on the texts, bytes and values themselves:
//! `names`, `modules`, `hosts`, `values` and `contexts`; `sight` states how contracts see what the
//! library hands out.

use vstd::multiset::Multiset;
use vstd::prelude::*;
use vstd::utf8::{encode_utf8, encode_utf8_decode_utf8, encode_utf8_valid_utf8};

use crate::call::{Asked, Call, Finished, LoaderRef, Next, SpecCall, Step};
use crate::callback::{
    arguments_step, caught, ArgumentsPending, CallbackOutcome, HostFunction, Invocation,
    ResultPending, ThrowPending,
};
use crate::context::{
    can_set_global, is_fresh, recorded_values, CallbackGlobalPending, CallbackPending,
    CallbackSetPending, ContextWrapper, EvalPending, ExecutePending, ModulePending, ResetPending,
    SourcePending,
};
use crate::cstring::{zero_free, CString};
use crate::error::{seen, ContextError, ExecutionError, SpecExecutionError};
use crate::exception::{
    described_error, needs_text, seen_text, FailurePending, FailureTextPending,
};
use crate::ledger::{all_gained, all_lost, held_all, lemma_leftovers};
use crate::loader::{
    default_module_normalize_func, quickjs_rs_module_loader, LoadError, LoadPending, NamePending,
};
use crate::module_builder::{named, property_calls, recorded, SpecExportEntry};
use crate::module_init::{export_calls, InitTextPending};
use crate::object_ref::{EncodePending, OwnedObjectRef, PropertyPending, SetPending};
use crate::path::{is_relative, law_fits, normalized};
use crate::registry::{exports_of, ModuleExportsData, NativeModules, SpecExport};
use crate::resolve::{
    ends_with, resolve_step, Awaited, PromiseJobPending, PromiseReasonPending, PromiseState,
    PromiseStatePending, PromiseValuePending, Resolution, ResolutionPending,
};
use crate::text::occurs_in;
use crate::value::{
    JsValue, Pointer, RawValue, SpecJsValue, TAG_EXCEPTION, TAG_OBJECT, TAG_UNDEFINED,
};
use crate::value_ref::OwnedValueRef;

pub mod contexts;
pub mod hosts;
pub mod modules;
pub mod names;
pub mod sight;
pub mod values;

verus! {

/// Once a module is built, the init callback for its name exports what was recorded for that name
/// before, and then the exports of the module, in their order and under their names. What it
/// exports for any other name is as before.
pub proof fn law_built_exports(
    data: Seq<SpecExport>,
    module: Seq<char>,
    exports: Seq<SpecExportEntry>,
    name: Seq<char>,
)
    ensures
        name == module ==> exports_of(data + recorded(module, exports), name) == exports_of(
            data,
            name,
        ) + named(exports),
        name != module ==> exports_of(data + recorded(module, exports), name) == exports_of(
            data,
            name,
        ),
    decreases exports.len(),
{
    let all = data + recorded(module, exports);
    if exports.len() == 0 {
        assert(all =~= data);
        assert(exports_of(data, name) + named(exports) =~= exports_of(data, name));
    } else {
        let before = exports.drop_last();
        law_built_exports(data, module, before, name);
        assert(all.drop_last() =~= data + recorded(module, before));
        assert(all.last() == recorded(module, exports).last());
        if name == module {
            assert(exports_of(all, name) =~= exports_of(data, name) + named(exports));
        }
    }
}

/// An import of a native module finds the module that was last filed under its name, and asks no
/// loader, whichever is set.
pub proof fn law_native_module_is_imported(
    before: Map<Seq<char>, Pointer>,
    modules: NativeModules,
    name: Seq<char>,
    module: Pointer,
    context: Pointer,
    c_name: CString,
    loader: Option<LoaderRef>,
    step: Step<LoadPending, Pointer>,
)
    requires
        modules@ == before.insert(name, module),
        c_name@ == encode_utf8(name),
        call_ensures(quickjs_rs_module_loader, (context, &c_name, &modules, loader), step),
    ensures
        step.issued() == Seq::<SpecCall>::empty(),
        step.next == Next::<LoadPending, Pointer>::Return(module),
{
    encode_utf8_valid_utf8(name);
    encode_utf8_decode_utf8(name);
}

/// A module under one name does not stand in the way of another: what an import of any other name
/// does is as if the module had not been filed.
pub proof fn law_other_modules_stay(
    before: NativeModules,
    after: NativeModules,
    filed: Seq<char>,
    module: Pointer,
    context: Pointer,
    c_name: CString,
    name: Seq<char>,
    loader: Option<LoaderRef>,
    step_before: Step<LoadPending, Pointer>,
    step_after: Step<LoadPending, Pointer>,
)
    requires
        after@ == before@.insert(filed, module),
        c_name@ == encode_utf8(name),
        name != filed,
        call_ensures(quickjs_rs_module_loader, (context, &c_name, &before, loader), step_before),
        call_ensures(quickjs_rs_module_loader, (context, &c_name, &after, loader), step_after),
    ensures
        step_before.issued() == step_after.issued(),
        step_before.next is Return <==> step_after.next is Return,
        step_before.next matches Next::Return(m) ==> step_after.next
            == Next::<LoadPending, Pointer>::Return(m),
{
    encode_utf8_valid_utf8(name);
    encode_utf8_decode_utf8(name);
}

/// Running a native module asks the engine for that module, and asks no loader.
pub proof fn law_native_module_is_run(
    wrapper: ContextWrapper,
    before: Map<Seq<char>, Pointer>,
    name: &str,
    module: Pointer,
    step: Step<ExecutePending, Result<(), ExecutionError>>,
)
    requires
        wrapper.native_modules@ == before.insert(name@, module),
        call_ensures(ContextWrapper::execute_module, (&wrapper, name), step),
    ensures
        step.issued() == seq![
            SpecCall::GetModuleNamespace { context: wrapper.context, module },
        ],
        step.next matches Next::Await(pending) && pending is Namespace,
{
}

/// In a context on which nothing has been done, no module can be run: the loader that knows no
/// module is asked, and its error is the result.
pub proof fn law_fresh_context_knows_no_module(
    wrapper: ContextWrapper,
    name: &str,
    step: Step<ExecutePending, Result<(), ExecutionError>>,
    answer: Result<String, LoadError>,
    end: Step<ModulePending, Result<(), ExecutionError>>,
)
    requires
        is_fresh(wrapper, wrapper.runtime, wrapper.context),
        call_ensures(ContextWrapper::execute_module, (&wrapper, name), step),
        answer matches Err(error) && error.message@ == "No module loader configured"@,
        step.next matches Next::Await(ExecutePending::Source(pending)) ==> call_ensures(
            SourcePending::loaded,
            (pending, answer),
            end,
        ),
    ensures
        step.issued() == seq![SpecCall::LoadModule { loader: LoaderRef::Noop, name: name@ }],
        end.issued() == Seq::<SpecCall>::empty(),
        end.next matches Next::Return(result) && seen(result) == Err::<(), _>(
            SpecExecutionError::Internal(
                "Fail to load module:"@ + "No module loader configured"@,
            ),
        ),
{
}

/// What evaluated code throws is reported by its text, and as lack of memory where the text says
/// so; where the text cannot be had, by the error why.
pub proof fn law_thrown_text_is_reported(
    evaluation: EvalPending,
    raw: RawValue,
    step: Resolution,
    value: RawValue,
    lookup: Step<FailureTextPending, ExecutionError>,
    text: Result<String, ExecutionError>,
    finished: Finished<ExecutionError>,
)
    requires
        raw.tag == TAG_EXCEPTION,
        needs_text(value),
        call_ensures(EvalPending::evaluated, (evaluation, raw), step),
        step.next matches Next::Await(ResolutionPending::Exception(pending)) ==> call_ensures(
            FailurePending::caught,
            (pending, value),
            lookup,
        ),
        lookup.next matches Next::Await(pending) ==> call_ensures(
            FailureTextPending::described,
            (pending, text),
            finished,
        ),
    ensures
        step.issued() + lookup.issued() + finished.issued() == seq![
            SpecCall::GetException { context: evaluation.context },
            SpecCall::Describe { context: evaluation.context, value },
            SpecCall::FreeValue { context: evaluation.context, value },
        ],
        finished.result@ == match text {
            Ok(text) => if occurs_in("out of memory"@, text@) {
                SpecExecutionError::OutOfMemory
            } else {
                SpecExecutionError::Exception(SpecJsValue::String(text@))
            },
            Err(error) => error@,
        },
{
    assert(step.issued() + lookup.issued() + finished.issued() =~= seq![
        SpecCall::GetException { context: evaluation.context },
        SpecCall::Describe { context: evaluation.context, value },
        SpecCall::FreeValue { context: evaluation.context, value },
    ]);
}

/// A value that is no object, and an object that is not a promise, is its own final value. It is
/// handed out untouched: none of its properties is read, and no job is run for it.
pub proof fn law_other_values_are_final(
    awaited: Awaited,
    start: Resolution,
    known: Resolution,
)
    requires
        awaited.value.tag != TAG_EXCEPTION,
        resolve_step(start, awaited),
        start.next matches Next::Await(ResolutionPending::State(pending)) ==> call_ensures(
            PromiseStatePending::known,
            (pending, PromiseState::NoPromise),
            known,
        ),
    ensures
        if awaited.value.tag == TAG_OBJECT {
            &&& start.issued() == seq![awaited.state_call()]
            &&& ends_with(known, Seq::<SpecCall>::empty(), awaited.context, awaited.value)
        } else {
            ends_with(start, Seq::<SpecCall>::empty(), awaited.context, awaited.value)
        },
{
}

/// A promise that its jobs fulfil is followed to its value. Each time it is not settled, one job is
/// run and it is asked again; once it is fulfilled, what it holds is the result, and the promise is
/// given back. `asks` are the steps that ask for the state, `jobs` those that run a job.
pub proof fn law_promise_is_resolved(
    awaited: Awaited,
    asks: Seq<Resolution>,
    jobs: Seq<Resolution>,
    statuses: Seq<i32>,
    settled: Resolution,
    raw: RawValue,
    end: Resolution,
)
    requires
        awaited.value.tag == TAG_OBJECT,
        asks.len() == jobs.len() + 1,
        statuses.len() == jobs.len(),
        resolve_step(asks[0], awaited),
        jobs_are_run(asks, jobs, statuses),
        asks.last().next matches Next::Await(ResolutionPending::State(pending)) ==> call_ensures(
            PromiseStatePending::known,
            (pending, PromiseState::Fulfilled),
            settled,
        ),
        settled.next matches Next::Await(ResolutionPending::Value(pending)) ==> call_ensures(
            PromiseValuePending::obtained,
            (pending, raw),
            end,
        ),
    ensures
        forall|k: int|
            0 <= k < jobs.len() ==> (#[trigger] jobs[k]).issued() == seq![
                awaited.job_call(),
            ],
        forall|k: int|
            0 <= k < asks.len() ==> (#[trigger] asks[k]).issued() == seq![
                awaited.state_call(),
            ],
        settled.issued() == seq![awaited.result_call()],
        end.issued() == seq![awaited.free_call()],
        end.next == Next::<ResolutionPending, _>::Return(
            Ok::<_, ExecutionError>(OwnedValueRef { context: awaited.context, value: raw }),
        ),
{
    lemma_jobs(awaited, asks, jobs, statuses, jobs.len());
    assert forall|k: int| 0 <= k < jobs.len() implies (#[trigger] jobs[k]).issued() == seq![
        awaited.job_call(),
    ] by {
        lemma_jobs(awaited, asks, jobs, statuses, k as nat);
    }
    assert forall|k: int| 0 <= k < asks.len() implies (#[trigger] asks[k]).issued() == seq![
        awaited.state_call(),
    ] by {
        lemma_jobs(awaited, asks, jobs, statuses, k as nat);
    }
}

/// Whether each ask but the last is answered with a promise that is not settled, and the job that
/// is then run leads to the next ask.
pub open spec fn jobs_are_run(
    asks: Seq<Resolution>,
    jobs: Seq<Resolution>,
    statuses: Seq<i32>,
) -> bool {
    forall|k: int|
        #![trigger jobs[k]]
        0 <= k < jobs.len() ==> {
            &&& statuses[k] > 0
            &&& asks[k].next matches Next::Await(ResolutionPending::State(pending))
                ==> call_ensures(
                PromiseStatePending::known,
                (pending, PromiseState::Pending),
                jobs[k],
            )
            &&& jobs[k].next matches Next::Await(ResolutionPending::Job(pending))
                ==> call_ensures(PromiseJobPending::done, (pending, statuses[k]), asks[k + 1])
        }
}

proof fn lemma_jobs(
    awaited: Awaited,
    asks: Seq<Resolution>,
    jobs: Seq<Resolution>,
    statuses: Seq<i32>,
    k: nat,
)
    requires
        k <= jobs.len(),
        awaited.value.tag == TAG_OBJECT,
        asks.len() == jobs.len() + 1,
        statuses.len() == jobs.len(),
        resolve_step(asks[0], awaited),
        jobs_are_run(asks, jobs, statuses),
    ensures
        asks[k as int].next == Next::<_, Result<OwnedValueRef, ExecutionError>>::Await(
            ResolutionPending::State(PromiseStatePending { awaited }),
        ),
        asks[k as int].issued() == seq![awaited.state_call()],
        k < jobs.len() ==> jobs[k as int].issued() == seq![awaited.job_call()],
        k < jobs.len() ==> jobs[k as int].next == Next::<
            _,
            Result<OwnedValueRef, ExecutionError>,
        >::Await(ResolutionPending::Job(PromiseJobPending { awaited })),
    decreases k,
{
    if k > 0 {
        lemma_jobs(awaited, asks, jobs, statuses, (k - 1) as nat);
        assert(statuses[k - 1] > 0);
        assert(jobs[k - 1].next is Await);
    }
    if k < jobs.len() {
        assert(statuses[k as int] > 0);
        assert(jobs[k as int].issued() == seq![awaited.job_call()]);
    }
}

/// A rejected promise is an error, as if its reason had been thrown.
pub proof fn law_rejection_is_an_error(
    pending: PromiseStatePending,
    settled: Resolution,
    reason: RawValue,
    described: Resolution,
    text: Result<String, ExecutionError>,
    finished: Finished<ExecutionError>,
)
    requires
        needs_text(reason),
        call_ensures(PromiseStatePending::known, (pending, PromiseState::Rejected), settled),
        settled.next matches Next::Await(ResolutionPending::Reason(next)) ==> call_ensures(
            PromiseReasonPending::obtained,
            (next, reason),
            described,
        ),
        described.next matches Next::Await(ResolutionPending::ExceptionText(next))
            ==> call_ensures(FailureTextPending::described, (next, text), finished),
    ensures
        settled.issued() + described.issued() + finished.issued() == seq![
            pending.awaited.result_call(),
            pending.awaited.free_call(),
            SpecCall::Describe { context: pending.awaited.context, value: reason },
            SpecCall::FreeValue { context: pending.awaited.context, value: reason },
        ],
        finished.result@ == described_error(seen_text(text)),
{
    assert(settled.issued() + described.issued() + finished.issued() =~= seq![
        pending.awaited.result_call(),
        pending.awaited.free_call(),
        SpecCall::Describe { context: pending.awaited.context, value: reason },
        SpecCall::FreeValue { context: pending.awaited.context, value: reason },
    ]);
}

/// A function that is created is a global, under its name, and is what the caller gets.
pub proof fn law_created_function_is_global(
    pending: CallbackPending,
    function: RawValue,
    asked: Step<CallbackGlobalPending, Result<OwnedValueRef, ExecutionError>>,
    global: RawValue,
    set: Step<CallbackSetPending, Result<OwnedValueRef, ExecutionError>>,
    status: i32,
    finished: Finished<Result<OwnedValueRef, ExecutionError>>,
)
    requires
        can_set_global(global, pending.name@),
        status >= 0,
        call_ensures(CallbackPending::created, (pending, function, Ok(())), asked),
        asked.next matches Next::Await(next) ==> call_ensures(
            CallbackGlobalPending::obtained,
            (next, global),
            set,
        ),
        set.next matches Next::Await(next) ==> call_ensures(
            CallbackSetPending::done,
            (next, status),
            finished,
        ),
    ensures
        asked.issued() + set.issued() + finished.issued() == seq![
            SpecCall::GetGlobalObject { context: pending.context },
            SpecCall::DupValue { context: pending.context, value: function },
            SpecCall::SetProperty {
                context: pending.context,
                object: global,
                name: encode_utf8(pending.name@),
                value: function,
            },
            SpecCall::FreeValue { context: pending.context, value: global },
        ],
        finished.result == Ok::<_, ExecutionError>(
            OwnedValueRef { context: pending.context, value: function },
        ),
{
    assert(asked.issued() + set.issued() + finished.issued() =~= seq![
        SpecCall::GetGlobalObject { context: pending.context },
        SpecCall::DupValue { context: pending.context, value: function },
        SpecCall::SetProperty {
            context: pending.context,
            object: global,
            name: encode_utf8(pending.name@),
            value: function,
        },
        SpecCall::FreeValue { context: pending.context, value: global },
    ]);
}

/// A reset frees the old context once, before it asks for the new one. Where it gets that, the
/// runtime is not freed, and what the wrapper had is kept, but for the functions made for the old
/// context; the native modules among it belong to the freed context, and must not be imported.
/// Where it gets none, all else is taken down: each reference of the export data is given back
/// without the freed context, and the runtime is freed, once, as the last.
pub proof fn law_reset(
    wrapper: ContextWrapper,
    asked: Asked<ResetPending>,
    context: Pointer,
    finished: Finished<Result<ContextWrapper, ContextError>>,
)
    requires
        call_ensures(ContextWrapper::reset, (wrapper,), asked),
        call_ensures(ResetPending::created, (asked.pending, context), finished),
    ensures
        ({
            let calls = asked.issued() + finished.issued();
            let n = calls.len() as int;
            if context == 0 {
                &&& finished.result == Err::<ContextWrapper, _>(
                    ContextError::ContextCreationFailed,
                )
                &&& n >= 3
                &&& calls[0] == (SpecCall::FreeContext { context: wrapper.context })
                &&& calls[1] == (SpecCall::NewContext { runtime: wrapper.runtime })
                &&& calls[n - 1] == (SpecCall::FreeRuntime { runtime: wrapper.runtime })
                &&& forall|i: int|
                    2 <= i < n - 1 ==> (#[trigger] calls[i]) is DropTracker
                        || calls[i] is FreeRuntimeValue
                &&& all_lost(calls) == held_all(recorded_values(wrapper.export_data()))
                &&& all_gained(calls) == Multiset::<RawValue>::empty()
            } else {
                &&& calls == seq![
                    SpecCall::FreeContext { context: wrapper.context },
                    SpecCall::NewContext { runtime: wrapper.runtime },
                ]
                &&& finished.result matches Ok(after) && after.callbacks@ == Seq::<u64>::empty()
                    && after == (ContextWrapper { context, callbacks: after.callbacks, ..wrapper })
                    && after.export_data() == wrapper.export_data()
            }
        }),
{
    let calls = asked.issued() + finished.issued();
    let first = seq![
        SpecCall::FreeContext { context: wrapper.context },
        SpecCall::NewContext { runtime: wrapper.runtime },
    ];
    if context == 0 {
        let rest = wrapper.leftover_calls();
        assert(calls =~= first + rest);
        lemma_leftovers(wrapper);
        assert forall|i: int| 2 <= i < calls.len() - 1 implies (#[trigger] calls[i]) is DropTracker
            || calls[i] is FreeRuntimeValue by {
            assert(calls[i] == rest[i - 2]);
        }
    } else {
        assert(calls =~= first);
    }
}

/// The properties of one object of the engine that stores what it is given: `before`, and then what
/// the calls set on it.
pub open spec fn stored(
    before: Map<Seq<u8>, RawValue>,
    object: RawValue,
    calls: Seq<SpecCall>,
) -> Map<Seq<u8>, RawValue>
    decreases calls.len(),
{
    if calls.len() == 0 {
        before
    } else {
        let so_far = stored(before, object, calls.drop_last());
        match calls.last() {
            SpecCall::SetProperty { object: target, name, value, .. } => if target == object {
                so_far.insert(name, value)
            } else {
                so_far
            },
            _ => so_far,
        }
    }
}

/// What an object of the engine with these properties gives for a name; undefined for a name that
/// it does not have.
pub open spec fn looked_up(properties: Map<Seq<u8>, RawValue>, name: Seq<u8>) -> RawValue {
    if properties.contains_key(name) {
        properties[name]
    } else {
        RawValue { tag: TAG_UNDEFINED, payload: 0 }
    }
}

/// What a call to decode a value gives, where `decode` is what the conversion makes of each value.
pub open spec fn decoded_by(
    decode: spec_fn(RawValue) -> SpecJsValue,
    call: SpecCall,
) -> Option<SpecJsValue> {
    match call {
        SpecCall::Decode { value, .. } => Some(decode(value)),
        _ => None,
    }
}

/// A property that has been set is read back as it was set: on an object that stores what it is
/// given, `property` gives the value that was set, and its host value is the one that was set, as
/// far as the conversion makes that of the value which it made from it. That value is neither
/// undefined nor an exception.
pub proof fn law_property_reads_what_was_set(
    object: OwnedObjectRef,
    name: &str,
    value: JsValue,
    asked: Asked<EncodePending>,
    raw: RawValue,
    set: Step<SetPending, Result<(), ExecutionError>>,
    before: Map<Seq<u8>, RawValue>,
    read: Step<PropertyPending, Result<OwnedValueRef, ExecutionError>>,
    result: Result<OwnedValueRef, ExecutionError>,
    decode: spec_fn(RawValue) -> SpecJsValue,
    to_value: Call,
)
    requires
        zero_free(encode_utf8(name@)),
        raw.tag != TAG_UNDEFINED && raw.tag != TAG_EXCEPTION,
        decode(raw) == value@,
        call_ensures(OwnedObjectRef::set_property, (&object, name, value), asked),
        call_ensures(EncodePending::encoded, (asked.pending, Ok(raw)), set),
        call_ensures(OwnedObjectRef::property, (&object, name), read),
        read.next matches Next::Await(pending) ==> call_ensures(
            PropertyPending::fetched,
            (
                pending,
                looked_up(stored(before, object.value.value, set.issued()), encode_utf8(name@)),
            ),
            result,
        ),
        result matches Ok(owned) ==> call_ensures(OwnedValueRef::to_value, (&owned,), to_value),
    ensures
        asked.issued() == seq![
            SpecCall::Encode { context: object.value.context, value: value@ },
        ],
        set.issued() == seq![
            SpecCall::SetProperty {
                context: object.value.context,
                object: object.value.value,
                name: encode_utf8(name@),
                value: raw,
            },
        ],
        read.issued() == seq![
            SpecCall::GetProperty {
                context: object.value.context,
                object: object.value.value,
                name: encode_utf8(name@),
            },
        ],
        stored(before, object.value.value, set.issued()) == before.insert(
            encode_utf8(name@),
            raw,
        ),
        result == Ok::<_, ExecutionError>(
            OwnedValueRef { context: object.value.context, value: raw },
        ),
        decoded_by(decode, to_value@) == Some(value@),
{
    reveal_with_fuel(stored, 2);
    assert(set.issued().drop_last() =~= Seq::<SpecCall>::empty());
}

/// Setting one property leaves every other as it was: on an object that stores what it is given,
/// `property` gives for any other name, since other names are other bytes, what it gave before.
pub proof fn law_other_properties_stay(
    object: OwnedObjectRef,
    pending: EncodePending,
    raw: RawValue,
    set: Step<SetPending, Result<(), ExecutionError>>,
    properties: Map<Seq<u8>, RawValue>,
    other: &str,
    read_before: Step<PropertyPending, Result<OwnedValueRef, ExecutionError>>,
    before: Result<OwnedValueRef, ExecutionError>,
    read_after: Step<PropertyPending, Result<OwnedValueRef, ExecutionError>>,
    after: Result<OwnedValueRef, ExecutionError>,
)
    requires
        other@ != pending.name@,
        pending.object == object.value.value,
        call_ensures(EncodePending::encoded, (pending, Ok(raw)), set),
        call_ensures(OwnedObjectRef::property, (&object, other), read_before),
        read_before.next matches Next::Await(next) ==> call_ensures(
            PropertyPending::fetched,
            (next, looked_up(properties, encode_utf8(other@))),
            before,
        ),
        call_ensures(OwnedObjectRef::property, (&object, other), read_after),
        read_after.next matches Next::Await(next) ==> call_ensures(
            PropertyPending::fetched,
            (
                next,
                looked_up(
                    stored(properties, object.value.value, set.issued()),
                    encode_utf8(other@),
                ),
            ),
            after,
        ),
    ensures
        read_before.issued() == read_after.issued(),
        match (read_before.next, read_after.next) {
            (Next::Await(_), Next::Await(_)) => seen(before) == seen(after),
            (Next::Return(b), Next::Return(a)) => seen(b) == seen(a),
            _ => false,
        },
{
    reveal_with_fuel(stored, 2);
    encode_utf8_decode_utf8(other@);
    encode_utf8_decode_utf8(pending.name@);
    assert(encode_utf8(other@) != encode_utf8(pending.name@));
    assert(set.issued().drop_last() =~= Seq::<SpecCall>::empty());
    let calls = set.issued();
    assert(looked_up(stored(properties, object.value.value, calls), encode_utf8(other@))
        == looked_up(properties, encode_utf8(other@)));
}

/// Where every argument can be converted, the host function is called with all of them, in their
/// order: `steps` is such a run, from the start of the call to the call of the host function.
pub proof fn law_all_arguments(
    context: Pointer,
    raw: Seq<RawValue>,
    values: Seq<JsValue>,
    steps: Seq<Step<ArgumentsPending, Result<Invocation, ExecutionError>>>,
)
    requires
        values.len() == raw.len(),
        steps.len() == raw.len() + 1,
        arguments_step(steps[0], context, raw, Seq::empty()),
        forall|k: int|
            #![trigger steps[k]]
            0 <= k < raw.len() ==> (steps[k].next matches Next::Await(pending) ==> call_ensures(
                ArgumentsPending::decoded,
                (pending, Ok(values[k])),
                steps[k + 1],
            )),
    ensures
        steps.last().issued() == Seq::<SpecCall>::empty(),
        steps.last().next matches Next::Return(Ok(invocation)) && invocation.context == context
            && invocation.args@ == values,
{
    lemma_arguments(context, raw, values, steps, raw.len());
    assert(values.take(raw.len() as int) =~= values);
}

proof fn lemma_arguments(
    context: Pointer,
    raw: Seq<RawValue>,
    values: Seq<JsValue>,
    steps: Seq<Step<ArgumentsPending, Result<Invocation, ExecutionError>>>,
    k: nat,
)
    requires
        k <= raw.len(),
        values.len() == raw.len(),
        steps.len() == raw.len() + 1,
        arguments_step(steps[0], context, raw, Seq::empty()),
        forall|k: int|
            #![trigger steps[k]]
            0 <= k < raw.len() ==> (steps[k].next matches Next::Await(pending) ==> call_ensures(
                ArgumentsPending::decoded,
                (pending, Ok(values[k])),
                steps[k + 1],
            )),
    ensures
        arguments_step(steps[k as int], context, raw, values.take(k as int)),
    decreases k,
{
    if k == 0 {
        assert(values.take(0) =~= Seq::empty());
    } else {
        let j = (k - 1) as nat;
        lemma_arguments(context, raw, values, steps, j);
        assert(values.take(j as int).push(values[j as int]) =~= values.take(k as int));
        assert(steps[j as int].next is Await);
    }
}

/// An error of the host function itself reaches the engine as it is: its text is thrown.
pub proof fn law_host_error_is_thrown(
    invocation: Invocation,
    text: String,
    step: Step<ResultPending, Result<RawValue, ExecutionError>>,
    function: HostFunction,
    shown: &str,
    reply: Step<ThrowPending, RawValue>,
)
    requires
        call_ensures(Invocation::completed, (invocation, CallbackOutcome::Failed(text)), step),
        step.next matches Next::Return(result) ==> call_ensures(
            HostFunction::reply,
            (&function, result, shown),
            reply,
        ),
    ensures
        reply.issued() == seq![
            SpecCall::Encode {
                context: function.context,
                value: SpecJsValue::String(text@),
            },
        ],
        reply.next is Await,
{
}

/// A panic in the call of a host function does not reach the engine as a panic: a message that
/// names the function is thrown.
pub proof fn law_panic_is_thrown(
    result: Result<RawValue, ExecutionError>,
    function: HostFunction,
    shown: &str,
    reply: Step<ThrowPending, RawValue>,
)
    requires
        call_ensures(caught, (None,), result),
        call_ensures(HostFunction::reply, (&function, result, shown), reply),
    ensures
        reply.issued() == seq![
            SpecCall::Encode {
                context: function.context,
                value: SpecJsValue::String("Failed to call ["@ + function.name@ + "], "@ + shown@),
            },
        ],
        reply.next is Await,
{
}

/// The namespace object gets every export: for each, in order, a reference is made and handed to
/// a property of the export's name.
pub proof fn law_namespace_has_all_exports(
    context: Pointer,
    namespace: RawValue,
    exports: Seq<(Seq<u8>, RawValue)>,
)
    ensures
        property_calls(context, namespace, exports).len() == 2 * exports.len(),
        forall|i: int|
            #![trigger exports[i]]
            0 <= i < exports.len() ==> {
                &&& property_calls(context, namespace, exports)[2 * i] == (SpecCall::DupValue {
                    context,
                    value: exports[i].1,
                })
                &&& property_calls(context, namespace, exports)[2 * i + 1]
                    == (SpecCall::SetProperty {
                    context,
                    object: namespace,
                    name: exports[i].0,
                    value: exports[i].1,
                })
            },
    decreases exports.len(),
{
    if exports.len() > 0 {
        let before = exports.drop_last();
        law_namespace_has_all_exports(context, namespace, before);
        let calls = property_calls(context, namespace, exports);
        assert forall|i: int|
            #![trigger exports[i]]
            0 <= i < exports.len() implies {
            &&& calls[2 * i] == (SpecCall::DupValue { context, value: exports[i].1 })
            &&& calls[2 * i + 1] == (SpecCall::SetProperty {
                context,
                object: namespace,
                name: exports[i].0,
                value: exports[i].1,
            })
        } by {
            if i < before.len() {
                assert(before[i] == exports[i]);
            }
        }
    }
}

/// The init callback hands every export to its module: for each, in order, a reference is made
/// and handed over under the export's name.
pub proof fn law_module_gets_all_exports(
    context: Pointer,
    module: Pointer,
    exports: Seq<(Seq<u8>, RawValue)>,
)
    ensures
        export_calls(context, module, exports).len() == 2 * exports.len(),
        forall|i: int|
            #![trigger exports[i]]
            0 <= i < exports.len() ==> {
                &&& export_calls(context, module, exports)[2 * i] == (SpecCall::DupValue {
                    context,
                    value: exports[i].1,
                })
                &&& export_calls(context, module, exports)[2 * i + 1]
                    == (SpecCall::SetModuleExport {
                    context,
                    module,
                    name: exports[i].0,
                    value: exports[i].1,
                })
            },
    decreases exports.len(),
{
    if exports.len() > 0 {
        let before = exports.drop_last();
        law_module_gets_all_exports(context, module, before);
        let calls = export_calls(context, module, exports);
        assert forall|i: int|
            #![trigger exports[i]]
            0 <= i < exports.len() implies {
            &&& calls[2 * i] == (SpecCall::DupValue { context, value: exports[i].1 })
            &&& calls[2 * i + 1] == (SpecCall::SetModuleExport {
                context,
                module,
                name: exports[i].0,
                value: exports[i].1,
            })
        } by {
            if i < before.len() {
                assert(before[i] == exports[i]);
            }
        }
    }
}

/// When the engine initializes a module that was built under a name of its own, the init callback
/// hands it the exports of the builder, and nothing else, and reports success.
pub proof fn law_build_then_init(
    before: Seq<SpecExport>,
    data: ModuleExportsData,
    name: Seq<char>,
    exports: Seq<SpecExportEntry>,
    pending: InitTextPending,
    text: Pointer,
    bytes: &[u8],
    finished: Finished<i32>,
)
    requires
        data@ == before + recorded(name, exports),
        exports_of(before, name) == Seq::<(Seq<u8>, RawValue)>::empty(),
        text != 0,
        bytes@ == encode_utf8(name),
        call_ensures(InitTextPending::converted, (pending, text, bytes, &data), finished),
    ensures
        finished.issued() == seq![
            SpecCall::FreeCString { context: pending.context, text },
            SpecCall::FreeAtom { context: pending.context, atom: pending.atom },
        ] + export_calls(pending.context, pending.module, named(exports)),
        finished.result == 0,
{
    encode_utf8_valid_utf8(name);
    encode_utf8_decode_utf8(name);
    law_built_exports(before, name, exports, name);
    assert(exports_of(before, name) + named(exports) =~= named(exports));
}

/// The block that is asked for the name of a module has room for the name and its terminator.
pub proof fn law_name_fits_its_block(
    context: Pointer,
    base: CString,
    name: CString,
    asked: Asked<NamePending>,
)
    requires
        base@.len() + name@.len() + 2 <= usize::MAX,
        call_ensures(default_module_normalize_func, (context, &base, &name), asked),
    ensures
        asked.pending matches NamePending::Block(text) ==> exists|size: usize|
            asked.issued() == seq![#[trigger] malloc_call(context, size)] && text@.len() + 1
                <= size,
{
    law_fits(base@, name@);
    crate::path::law_directory_is_shorter(base@);
    if asked.pending is Block {
        let size = crate::loader::block_size(base@, name@) as usize;
        assert(asked.issued() =~= seq![malloc_call(context, size)]);
    }
}

/// The request for a block of that size.
pub open spec fn malloc_call(context: Pointer, size: usize) -> SpecCall {
    SpecCall::Malloc { context, size }
}

/// Without a loader, or where it leaves the choice, a relative name goes to the engine resolved
/// against the importing module, and any other name as it is.
pub proof fn law_default_names(
    context: Pointer,
    base: CString,
    name: CString,
    asked: Asked<NamePending>,
    pointer: Pointer,
    finished: Finished<Pointer>,
)
    requires
        call_ensures(default_module_normalize_func, (context, &base, &name), asked),
        call_ensures(NamePending::obtained, (asked.pending, pointer), finished),
        pointer != 0,
    ensures
        finished.result == pointer,
        is_relative(name@) ==> finished.issued() == seq![
            SpecCall::WriteString { block: pointer, text: normalized(base@, name@) },
        ],
        !is_relative(name@) ==> asked.issued() == seq![
            SpecCall::Strdup { context, text: name@ },
        ] && finished.issued() == Seq::<SpecCall>::empty() && normalized(base@, name@) == name@,
{
}

} // verus!
