//! References: which calls make and give back references to engine values, and what the
//! operations leave behind.
//!
//! The engine counts references only to the values that it allocates, so only those are counted
//! here.

use vstd::multiset::Multiset;
use vstd::prelude::*;
use vstd::utf8::encode_utf8;

use crate::call::{Finished, Next, SpecCall, Step};
use crate::callback::ThrowPending;
use crate::context::{
    can_set_global, recorded_values, refused_global_calls, runtime_free_calls, set_global_call,
    AddGlobalPending, AddSetPending, CallbackGlobalPending, CallbackSetPending, ContextWrapper,
    EvalPending, FunctionCall, ModulePending,
};
use crate::error::{ExecutionError, ValueError};
use crate::exception::{needs_text, ExceptionPending, ExceptionTextPending, FailureTextPending};
use crate::loader::CompilePending;
use crate::module_builder::{
    build_calls, dup_calls, free_calls, named, named_values, property_calls, recorded,
    register_calls, values, SpecExportEntry,
};
use crate::module_init::export_calls;
use crate::object_ref::{
    CatchPending, EncodePending, PropertyPending, PropertyTagPending, SetPending, ThenPending,
};
use crate::resolve::{
    PromiseJobPending, PromiseReasonPending, PromiseValuePending, Resolution, ResolutionPending,
};
use crate::value::{is_counted, JsValue, Pointer, RawValue, TAG_OBJECT, TAG_STRING};
use crate::value_ref::{ConvertPending, DecodePending, OwnedValueRef};

verus! {

/// One reference to `value`; nothing for a value that is not counted.
pub open spec fn held(value: RawValue) -> Multiset<RawValue> {
    if is_counted(value) {
        Multiset::singleton(value)
    } else {
        Multiset::empty()
    }
}

/// One reference to each value.
pub open spec fn held_all(values: Seq<RawValue>) -> Multiset<RawValue>
    decreases values.len(),
{
    if values.len() == 0 {
        Multiset::empty()
    } else {
        held_all(values.drop_last()).add(held(values.last()))
    }
}

/// The references that a call makes for the binding, besides the one to what it returns.
pub open spec fn gained(call: SpecCall) -> Multiset<RawValue> {
    match call {
        SpecCall::DupValue { value, .. } => held(value),
        _ => Multiset::empty(),
    }
}

/// The references that a call takes from the binding.
pub open spec fn lost(call: SpecCall) -> Multiset<RawValue> {
    match call {
        SpecCall::FreeValue { value, .. } => held(value),
        SpecCall::FreeRuntimeValue { value, .. } => held(value),
        SpecCall::SetProperty { value, .. } => held(value),
        SpecCall::SetModuleExport { value, .. } => held(value),
        SpecCall::Throw { value, .. } => held(value),
        _ => Multiset::empty(),
    }
}

/// The references that some calls make.
pub open spec fn all_gained(calls: Seq<SpecCall>) -> Multiset<RawValue>
    decreases calls.len(),
{
    if calls.len() == 0 {
        Multiset::empty()
    } else {
        all_gained(calls.drop_last()).add(gained(calls.last()))
    }
}

/// The references that some calls take.
pub open spec fn all_lost(calls: Seq<SpecCall>) -> Multiset<RawValue>
    decreases calls.len(),
{
    if calls.len() == 0 {
        Multiset::empty()
    } else {
        all_lost(calls.drop_last()).add(lost(calls.last()))
    }
}

proof fn lemma_push(calls: Seq<SpecCall>, call: SpecCall)
    ensures
        all_gained(calls.push(call)) == all_gained(calls).add(gained(call)),
        all_lost(calls.push(call)) == all_lost(calls).add(lost(call)),
{
    assert(calls.push(call).drop_last() =~= calls);
}

proof fn lemma_concat(a: Seq<SpecCall>, b: Seq<SpecCall>)
    ensures
        all_gained(a + b) == all_gained(a).add(all_gained(b)),
        all_lost(a + b) == all_lost(a).add(all_lost(b)),
    decreases b.len(),
{
    if b.len() == 0 {
        assert(a + b =~= a);
    } else {
        lemma_concat(a, b.drop_last());
        assert((a + b).drop_last() =~= a + b.drop_last());
        assert(all_gained(a + b) =~= all_gained(a).add(all_gained(b)));
        assert(all_lost(a + b) =~= all_lost(a).add(all_lost(b)));
    }
}

proof fn lemma_one(call: SpecCall)
    ensures
        all_gained(seq![call]) == gained(call),
        all_lost(seq![call]) == lost(call),
{
    let empty = Seq::<SpecCall>::empty();
    lemma_push(empty, call);
    assert(empty.push(call) =~= seq![call]);
    assert(all_gained(seq![call]) =~= gained(call));
    assert(all_lost(seq![call]) =~= lost(call));
}

proof fn lemma_two(first: SpecCall, second: SpecCall)
    ensures
        all_gained(seq![first, second]) == gained(first).add(gained(second)),
        all_lost(seq![first, second]) == lost(first).add(lost(second)),
{
    lemma_one(first);
    lemma_push(seq![first], second);
    assert(seq![first].push(second) =~= seq![first, second]);
}

proof fn lemma_frees(context: Pointer, values: Seq<RawValue>)
    ensures
        all_gained(free_calls(context, values)) == Multiset::<RawValue>::empty(),
        all_lost(free_calls(context, values)) == held_all(values),
    decreases values.len(),
{
    let calls = free_calls(context, values);
    if values.len() > 0 {
        lemma_frees(context, values.drop_last());
        assert(calls.drop_last() =~= free_calls(context, values.drop_last()));
        assert(all_gained(calls) =~= Multiset::<RawValue>::empty());
    }
}

proof fn lemma_runtime_frees(runtime: Pointer, values: Seq<RawValue>)
    ensures
        all_gained(runtime_free_calls(runtime, values)) == Multiset::<RawValue>::empty(),
        all_lost(runtime_free_calls(runtime, values)) == held_all(values),
    decreases values.len(),
{
    let calls = runtime_free_calls(runtime, values);
    if values.len() > 0 {
        lemma_runtime_frees(runtime, values.drop_last());
        assert(calls.drop_last() =~= runtime_free_calls(runtime, values.drop_last()));
        assert(all_gained(calls) =~= Multiset::<RawValue>::empty());
    }
}

/// What is left behind a freed context is taken down with the runtime as the last, and each
/// reference of the export data is given back; so it is when the context was freed, and another
/// asked for, just before.
pub(crate) proof fn lemma_leftovers(wrapper: ContextWrapper)
    ensures
        ({
            let calls = wrapper.leftover_calls();
            let n = calls.len() as int;
            let all = seq![
                SpecCall::FreeContext { context: wrapper.context },
                SpecCall::NewContext { runtime: wrapper.runtime },
            ] + calls;
            &&& n >= 1
            &&& calls[n - 1] == (SpecCall::FreeRuntime { runtime: wrapper.runtime })
            &&& forall|i: int|
                0 <= i < n - 1 ==> (#[trigger] calls[i]) is DropTracker
                    || calls[i] is FreeRuntimeValue
            &&& all_lost(all) == held_all(recorded_values(wrapper.export_data()))
            &&& all_gained(all) == Multiset::<RawValue>::empty()
        }),
{
    let data = recorded_values(wrapper.export_data());
    let first = seq![
        SpecCall::FreeContext { context: wrapper.context },
        SpecCall::NewContext { runtime: wrapper.runtime },
    ];
    let tracker = wrapper.tracker_calls();
    let frees = runtime_free_calls(wrapper.runtime, data);
    let last = seq![SpecCall::FreeRuntime { runtime: wrapper.runtime }];
    if let Some(number) = wrapper.rejection_tracker {
        lemma_one(SpecCall::DropTracker { tracker: number });
    }
    lemma_two(first[0], first[1]);
    lemma_one(last[0]);
    lemma_runtime_frees(wrapper.runtime, data);
    lemma_concat(tracker, frees);
    lemma_concat(tracker + frees, last);
    lemma_concat(first, wrapper.leftover_calls());
    let all = first + wrapper.leftover_calls();
    assert(all_lost(all) =~= held_all(data));
    assert(all_gained(all) =~= Multiset::<RawValue>::empty());
}

proof fn lemma_dups(context: Pointer, values: Seq<RawValue>)
    ensures
        all_gained(dup_calls(context, values)) == held_all(values),
        all_lost(dup_calls(context, values)) == Multiset::<RawValue>::empty(),
    decreases values.len(),
{
    let calls = dup_calls(context, values);
    if values.len() > 0 {
        lemma_dups(context, values.drop_last());
        assert(calls.drop_last() =~= dup_calls(context, values.drop_last()));
        assert(all_lost(calls) =~= Multiset::<RawValue>::empty());
    }
}

proof fn lemma_registers(context: Pointer, module: Pointer, exports: Seq<SpecExportEntry>)
    ensures
        all_gained(register_calls(context, module, exports)) == Multiset::<RawValue>::empty(),
        all_lost(register_calls(context, module, exports)) == Multiset::<RawValue>::empty(),
    decreases exports.len(),
{
    let calls = register_calls(context, module, exports);
    if exports.len() > 0 {
        lemma_registers(context, module, exports.drop_last());
        assert(calls.drop_last() =~= register_calls(context, module, exports.drop_last()));
        assert(all_gained(calls) =~= Multiset::<RawValue>::empty());
        assert(all_lost(calls) =~= Multiset::<RawValue>::empty());
    }
}

proof fn lemma_properties(context: Pointer, object: RawValue, exports: Seq<(Seq<u8>, RawValue)>)
    ensures
        all_gained(property_calls(context, object, exports)) == held_all(named_values(exports)),
        all_lost(property_calls(context, object, exports)) == held_all(named_values(exports)),
    decreases exports.len(),
{
    if exports.len() > 0 {
        let before = exports.drop_last();
        let (name, value) = exports.last();
        lemma_properties(context, object, before);
        let calls = property_calls(context, object, before);
        let dup = SpecCall::DupValue { context, value };
        let set = SpecCall::SetProperty { context, object, name, value };
        lemma_push(calls, dup);
        lemma_push(calls.push(dup), set);
        let all = property_calls(context, object, exports);
        assert(named_values(exports).drop_last() =~= named_values(before));
        assert(all_gained(all) =~= held_all(named_values(exports)));
        assert(all_lost(all) =~= held_all(named_values(exports)));
    }
}

proof fn lemma_exports(context: Pointer, module: Pointer, exports: Seq<(Seq<u8>, RawValue)>)
    ensures
        all_gained(export_calls(context, module, exports)) == held_all(named_values(exports)),
        all_lost(export_calls(context, module, exports)) == held_all(named_values(exports)),
    decreases exports.len(),
{
    if exports.len() > 0 {
        let before = exports.drop_last();
        let (name, value) = exports.last();
        lemma_exports(context, module, before);
        let calls = export_calls(context, module, before);
        let dup = SpecCall::DupValue { context, value };
        let set = SpecCall::SetModuleExport { context, module, name, value };
        lemma_push(calls, dup);
        lemma_push(calls.push(dup), set);
        let all = export_calls(context, module, exports);
        assert(named_values(exports).drop_last() =~= named_values(before));
        assert(all_gained(all) =~= held_all(named_values(exports)));
        assert(all_lost(all) =~= held_all(named_values(exports)));
    }
}

/// The calls of a build that gets its module and its namespace object.
pub open spec fn whole_build(
    context: Pointer,
    module: Pointer,
    exports: Seq<SpecExportEntry>,
    first: bool,
    namespace: RawValue,
) -> Seq<SpecCall> {
    build_calls(context, module, exports, first) + (property_calls(
        context,
        namespace,
        named(exports),
    ) + free_calls(context, named_values(named(exports))))
}

/// A module that is built moves references and loses none: the builder's reference to each
/// function, and those made on the way, end up in the export data, or with the engine.
pub proof fn law_build_keeps_references(
    context: Pointer,
    module: Pointer,
    name: Seq<char>,
    exports: Seq<SpecExportEntry>,
    first: bool,
    namespace: RawValue,
)
    ensures
        held_all(values(exports)).add(
            all_gained(whole_build(context, module, exports, first, namespace)),
        ) == held_all(recorded_values(recorded(name, exports))).add(
            all_lost(whole_build(context, module, exports, first, namespace)),
        ),
{
    let functions = values(exports);
    assert(named_values(named(exports)) =~= functions);
    assert(recorded_values(recorded(name, exports)) =~= functions);
    let opaque = if first {
        seq![SpecCall::SetContextOpaque { context }]
    } else {
        Seq::<SpecCall>::empty()
    };
    let object = seq![SpecCall::NewObject { context }];
    lemma_one(SpecCall::SetContextOpaque { context });
    lemma_one(SpecCall::NewObject { context });
    lemma_registers(context, module, exports);
    lemma_dups(context, functions);
    lemma_properties(context, namespace, named(exports));
    lemma_frees(context, functions);
    let register = register_calls(context, module, exports);
    let dups = dup_calls(context, functions);
    lemma_concat(register, dups);
    lemma_concat(register + dups, opaque);
    lemma_concat(register + dups + opaque, object);
    let properties = property_calls(context, namespace, named(exports));
    let frees = free_calls(context, functions);
    lemma_concat(properties, frees);
    lemma_concat(build_calls(context, module, exports, first), properties + frees);
    let all = whole_build(context, module, exports, first, namespace);
    assert(all_gained(all) =~= held_all(functions).add(held_all(functions)));
    assert(all_lost(all) =~= held_all(functions).add(held_all(functions)));
}

/// A module that the engine does not create costs nothing: each of the builder's references is
/// given back.
pub proof fn law_failed_build_keeps_no_reference(context: Pointer, exports: Seq<SpecExportEntry>)
    ensures
        all_lost(free_calls(context, values(exports))) == held_all(values(exports)),
        all_gained(free_calls(context, values(exports))) == Multiset::<RawValue>::empty(),
{
    lemma_frees(context, values(exports));
}

/// The init callback hands the engine references of its own, and leaves those of the export data
/// alone.
pub proof fn law_init_keeps_references(
    context: Pointer,
    module: Pointer,
    exports: Seq<(Seq<u8>, RawValue)>,
)
    ensures
        all_gained(export_calls(context, module, exports)) == all_lost(
            export_calls(context, module, exports),
        ),
{
    lemma_exports(context, module, exports);
}

/// Taking down a context gives back each reference that its export data holds, once, and ends
/// with the context and then the runtime, each freed once.
pub proof fn law_teardown_gives_all_back(wrapper: ContextWrapper)
    ensures
        all_lost(wrapper.teardown_calls()) == held_all(recorded_values(wrapper.export_data())),
        all_gained(wrapper.teardown_calls()) == Multiset::<RawValue>::empty(),
        ({
            let calls = wrapper.teardown_calls();
            let n = calls.len() as int;
            &&& n >= 2
            &&& calls[n - 2] == (SpecCall::FreeContext { context: wrapper.context })
            &&& calls[n - 1] == (SpecCall::FreeRuntime { runtime: wrapper.runtime })
            &&& forall|i: int|
                0 <= i < n - 2 ==> !((#[trigger] calls[i]) is FreeContext)
                    && !(calls[i] is FreeRuntime)
        }),
{
    let data = recorded_values(wrapper.export_data());
    let tracker = wrapper.tracker_calls();
    let frees = free_calls(wrapper.context, data);
    let last = seq![
        SpecCall::FreeContext { context: wrapper.context },
        SpecCall::FreeRuntime { runtime: wrapper.runtime },
    ];
    if let Some(number) = wrapper.rejection_tracker {
        lemma_one(SpecCall::DropTracker { tracker: number });
    }
    lemma_frees(wrapper.context, data);
    lemma_two(last[0], last[1]);
    lemma_concat(tracker, frees);
    lemma_concat(tracker + frees, last);
    assert(all_lost(wrapper.teardown_calls()) =~= held_all(data));
    assert(all_gained(wrapper.teardown_calls()) =~= Multiset::<RawValue>::empty());
}

proof fn lemma_held_concat(a: Seq<RawValue>, b: Seq<RawValue>)
    ensures
        held_all(a + b) == held_all(a).add(held_all(b)),
    decreases b.len(),
{
    if b.len() == 0 {
        assert(a + b =~= a);
    } else {
        lemma_held_concat(a, b.drop_last());
        assert((a + b).drop_last() =~= a + b.drop_last());
        assert(held_all(a + b) =~= held_all(a).add(held_all(b)));
    }
}

/// Over the life of a context nothing is lost: what the export data held before a build, the
/// builder's references, and those made by the build, are all given back or handed over by the
/// time the context is taken down.
pub proof fn law_build_then_teardown(
    before: ContextWrapper,
    after: ContextWrapper,
    module: Pointer,
    name: Seq<char>,
    exports: Seq<SpecExportEntry>,
    namespace: RawValue,
)
    requires
        after.export_data() == before.export_data() + recorded(name, exports),
    ensures
        ({
            let build = whole_build(
                before.context,
                module,
                exports,
                before.module_exports is None,
                namespace,
            );
            held_all(recorded_values(before.export_data())).add(held_all(values(exports))).add(
                all_gained(build),
            ) == all_lost(build).add(all_lost(after.teardown_calls()))
        }),
{
    let first = before.module_exports is None;
    law_build_keeps_references(before.context, module, name, exports, first, namespace);
    law_teardown_gives_all_back(after);
    let old_values = recorded_values(before.export_data());
    let new_values = recorded_values(recorded(name, exports));
    lemma_held_concat(old_values, new_values);
    assert(recorded_values(after.export_data()) =~= old_values + new_values);
    let build = whole_build(before.context, module, exports, first, namespace);
    assert(held_all(old_values).add(held_all(values(exports))).add(all_gained(build)) =~= held_all(
        old_values,
    ).add(held_all(values(exports)).add(all_gained(build))));
    assert(held_all(old_values).add(held_all(new_values).add(all_lost(build))) =~= all_lost(
        build,
    ).add(held_all(old_values).add(held_all(new_values))));
}

/// A reference that is made for a value and then given back leaves nothing behind.
pub proof fn law_duplicate_and_release(owned: OwnedValueRef, duplicate: Finished<OwnedValueRef>)
    requires
        call_ensures(OwnedValueRef::duplicate, (&owned,), duplicate),
    ensures
        all_gained(duplicate.issued()) == held(owned.value),
        lost(
            SpecCall::FreeValue {
                context: duplicate.result.context,
                value: duplicate.result.value,
            },
        ) == held(owned.value),
{
    lemma_one(SpecCall::DupValue { context: owned.context, value: owned.value });
}

/// Reading the tag of a property gives the property back.
pub proof fn law_property_tag_gives_back(
    pending: PropertyTagPending,
    raw: RawValue,
    finished: Finished<Result<i64, ValueError>>,
)
    requires
        call_ensures(PropertyTagPending::fetched, (pending, raw), finished),
    ensures
        all_lost(finished.issued()) == held(raw),
{
    lemma_one(SpecCall::FreeValue { context: pending.context, value: raw });
}

/// Reading a property hands the reference to it to the caller; where there is an error instead,
/// there was no reference.
pub proof fn law_property_hands_over(
    pending: PropertyPending,
    raw: RawValue,
    result: Result<OwnedValueRef, ExecutionError>,
)
    requires
        call_ensures(PropertyPending::fetched, (pending, raw), result),
    ensures
        match result {
            Ok(owned) => owned.value == raw,
            Err(_) => held(raw) == Multiset::<RawValue>::empty(),
        },
{
}

/// Whether an object is a promise is decided by its properties `then` and `catch`, and both are
/// given back.
pub proof fn law_promise(
    pending: ThenPending,
    then_value: RawValue,
    step: Step<CatchPending, Result<bool, ValueError>>,
    catch_value: RawValue,
    finished: Finished<Result<bool, ValueError>>,
)
    requires
        call_ensures(ThenPending::fetched, (pending, then_value), step),
        step.next matches Next::Await(next) ==> call_ensures(
            CatchPending::fetched,
            (next, catch_value),
            finished,
        ),
    ensures
        all_lost(step.issued()) == held(then_value),
        match step.next {
            Next::Return(result) => result == Ok::<bool, ValueError>(false) && then_value.tag
                != TAG_OBJECT,
            Next::Await(_) => {
                &&& then_value.tag == TAG_OBJECT
                &&& all_lost(finished.issued()) == held(catch_value)
                &&& finished.result == Ok::<bool, ValueError>(
                    then_value.tag == TAG_OBJECT && catch_value.tag == TAG_OBJECT,
                )
            },
        },
{
    let free = SpecCall::FreeValue { context: pending.context, value: then_value };
    lemma_one(free);
    lemma_one(SpecCall::FreeValue { context: pending.context, value: catch_value });
    if then_value.tag == TAG_OBJECT {
        lemma_two(free, step.issued()[1]);
        assert(step.issued() =~= seq![free, step.issued()[1]]);
        assert(all_lost(step.issued()) =~= held(then_value));
    }
}

/// Turning a value into text gives back the string that the engine made for it.
pub proof fn law_to_string_gives_back(
    pending: ConvertPending,
    raw: RawValue,
    step: Step<DecodePending, Result<String, ExecutionError>>,
    decoded: Result<JsValue, ValueError>,
    finished: Finished<Result<String, ExecutionError>>,
)
    requires
        call_ensures(ConvertPending::converted, (pending, raw), step),
        step.next matches Next::Await(next) ==> call_ensures(
            DecodePending::decoded,
            (next, decoded),
            finished,
        ),
    ensures
        match step.next {
            Next::Return(_) => all_lost(step.issued()) == held(raw),
            Next::Await(_) => all_lost(step.issued() + finished.issued()) == held(raw),
        },
{
    let free = SpecCall::FreeValue { context: pending.context, value: raw };
    let decode = SpecCall::Decode { context: pending.context, value: raw };
    lemma_one(free);
    lemma_one(decode);
    lemma_two(decode, free);
    if raw.tag == TAG_STRING {
        assert(step.issued() + finished.issued() =~= seq![decode, free]);
        assert(all_lost(step.issued() + finished.issued()) =~= held(raw));
    }
}

/// Looking up the pending exception gives its value back, whatever it is and whatever its text
/// is.
pub proof fn law_exception_gives_back(
    pending: ExceptionPending,
    value: RawValue,
    step: Step<ExceptionTextPending, Option<ExecutionError>>,
    text: Result<String, ExecutionError>,
    finished: Finished<Option<ExecutionError>>,
)
    requires
        call_ensures(ExceptionPending::caught, (pending, value), step),
        step.next matches Next::Await(next) ==> call_ensures(
            ExceptionTextPending::described,
            (next, text),
            finished,
        ),
    ensures
        match step.next {
            Next::Return(_) => all_lost(step.issued()) == held(value),
            Next::Await(_) => all_lost(step.issued() + finished.issued()) == held(value),
        },
{
    let free = SpecCall::FreeValue { context: pending.context, value };
    let describe = SpecCall::Describe { context: pending.context, value };
    lemma_one(free);
    lemma_one(describe);
    lemma_two(describe, free);
    if needs_text(value) {
        assert(step.issued() + finished.issued() =~= seq![describe, free]);
        assert(all_lost(step.issued() + finished.issued()) =~= held(value));
    }
}

/// Evaluating code hands the reference to its value to the caller, at once, or, where it is an
/// object, at the end of the search for its final value, which holds it till then. Where there is
/// an exception instead, there was no reference.
pub proof fn law_eval_hands_over(pending: EvalPending, value: RawValue, step: Resolution)
    requires
        call_ensures(EvalPending::evaluated, (pending, value), step),
    ensures
        all_lost(step.issued()) == Multiset::<RawValue>::empty(),
        match step.next {
            Next::Return(result) => result matches Ok(owned) && owned.value == value,
            Next::Await(ResolutionPending::State(next)) => next.awaited.value == value,
            Next::Await(_) => held(value) == Multiset::<RawValue>::empty(),
        },
{
    lemma_one(SpecCall::GetException { context: pending.context });
    lemma_one(SpecCall::PromiseState { context: pending.context, promise: value });
}

/// The end of a call gives back neither the function nor an argument: those references stay with
/// the caller. What the function returned is handed over, at once or at the end of the search for
/// its final value, which holds it till then; where there is an exception instead, there was no
/// reference.
pub proof fn law_call_leaves_function_and_arguments(
    call: FunctionCall,
    value: Result<RawValue, ExecutionError>,
    step: Resolution,
)
    requires
        call_ensures(FunctionCall::returned, (call, value), step),
    ensures
        all_lost(step.issued()) == Multiset::<RawValue>::empty(),
        all_gained(step.issued()) == Multiset::<RawValue>::empty(),
        value matches Ok(raw) ==> match step.next {
            Next::Return(result) => result matches Ok(owned) && owned.value == raw,
            Next::Await(ResolutionPending::State(next)) => next.awaited.value == raw,
            Next::Await(_) => held(raw) == Multiset::<RawValue>::empty(),
        },
{
    lemma_one(SpecCall::GetException { context: call.context });
    if let Ok(raw) = value {
        lemma_one(SpecCall::PromiseState { context: call.context, promise: raw });
    }
}

/// A fulfilled promise is given back, and the reference to its value handed to the caller.
pub proof fn law_fulfilled_promise_gives_back(
    pending: PromiseValuePending,
    raw: RawValue,
    step: Resolution,
)
    requires
        call_ensures(PromiseValuePending::obtained, (pending, raw), step),
    ensures
        all_lost(step.issued()) == held(pending.awaited.value),
        step.next matches Next::Return(Ok(owned)) && owned.value == raw,
{
    lemma_one(pending.awaited.free_call());
}

/// A rejected promise is given back, and so is the reason of the rejection.
pub proof fn law_rejected_promise_gives_back(
    pending: PromiseReasonPending,
    raw: RawValue,
    step: Resolution,
    text: Result<String, ExecutionError>,
    finished: Finished<ExecutionError>,
)
    requires
        call_ensures(PromiseReasonPending::obtained, (pending, raw), step),
        step.next matches Next::Await(ResolutionPending::ExceptionText(next)) ==> call_ensures(
            FailureTextPending::described,
            (next, text),
            finished,
        ),
    ensures
        match step.next {
            Next::Return(_) => all_lost(step.issued()) == held(pending.awaited.value).add(
                held(raw),
            ),
            Next::Await(_) => all_lost(step.issued() + finished.issued()) == held(
                pending.awaited.value,
            ).add(held(raw)),
        },
{
    let free_promise = pending.awaited.free_call();
    let free_reason = SpecCall::FreeValue { context: pending.awaited.context, value: raw };
    let describe = SpecCall::Describe { context: pending.awaited.context, value: raw };
    lemma_two(free_promise, free_reason);
    lemma_two(free_promise, describe);
    if needs_text(raw) {
        let calls = step.issued();
        assert(calls =~= seq![free_promise, describe]);
        lemma_push(calls, free_reason);
        assert(calls + finished.issued() =~= calls.push(free_reason));
        assert(all_lost(calls + finished.issued()) =~= held(pending.awaited.value).add(held(raw)));
    }
}

/// While jobs are run for a promise, the reference to it is held. It is handed to the caller where
/// no job is left, and given back where a job fails.
pub proof fn law_job_keeps_promise(pending: PromiseJobPending, status: i32, step: Resolution)
    requires
        call_ensures(PromiseJobPending::done, (pending, status), step),
    ensures
        status < 0 ==> all_lost(step.issued()) == held(pending.awaited.value),
        status == 0 ==> all_lost(step.issued()) == Multiset::<RawValue>::empty() && (
        step.next matches Next::Return(Ok(owned)) && owned.value == pending.awaited.value),
        status > 0 ==> all_lost(step.issued()) == Multiset::<RawValue>::empty() && (
        step.next matches Next::Await(ResolutionPending::State(next)) && next.awaited
            == pending.awaited),
{
    let free = pending.awaited.free_call();
    let get = SpecCall::GetException { context: pending.awaited.context };
    lemma_two(free, get);
    lemma_one(pending.awaited.state_call());
    assert(lost(free).add(lost(get)) =~= held(pending.awaited.value));
}

/// Running a module gives its final value back; where there is an error instead, there is nothing
/// to give back.
pub proof fn law_module_gives_back(
    pending: ModulePending,
    value: Result<OwnedValueRef, ExecutionError>,
    finished: Finished<Result<(), ExecutionError>>,
)
    requires
        call_ensures(ModulePending::resolved, (pending, value), finished),
    ensures
        match value {
            Ok(owned) => all_lost(finished.issued()) == held(owned.value),
            Err(_) => all_lost(finished.issued()) == Multiset::<RawValue>::empty(),
        },
{
    if let Ok(owned) = value {
        lemma_one(SpecCall::FreeValue { context: owned.context, value: owned.value });
    }
}

/// Compiling a module for an import gives the compiled function back, whose address alone is
/// handed to the engine; where there is an exception instead, there was no reference.
pub proof fn law_import_gives_back(
    pending: CompilePending,
    function: RawValue,
    finished: Finished<Pointer>,
)
    requires
        call_ensures(CompilePending::compiled, (pending, function), finished),
    ensures
        all_lost(finished.issued()) == held(function),
{
    let meta = SpecCall::SetImportMeta {
        context: pending.context,
        function,
        use_realpath: false,
        is_main: false,
    };
    let free = SpecCall::FreeValue { context: pending.context, value: function };
    lemma_two(meta, free);
    assert(lost(meta).add(lost(free)) =~= held(function));
}

/// Setting a property takes over the reference to its value, whatever its name: it goes to the
/// engine, or is given back.
pub proof fn law_set_property_hands_over(
    pending: EncodePending,
    raw: RawValue,
    step: Step<SetPending, Result<(), ExecutionError>>,
)
    requires
        call_ensures(EncodePending::encoded, (pending, Ok(raw)), step),
    ensures
        all_lost(step.issued()) == held(raw),
        all_gained(step.issued()) == Multiset::<RawValue>::empty(),
{
    lemma_one(
        SpecCall::SetProperty {
            context: pending.context,
            object: pending.object,
            name: encode_utf8(pending.name@),
            value: raw,
        },
    );
    lemma_one(SpecCall::FreeValue { context: pending.context, value: raw });
}

proof fn lemma_refused_global(context: Pointer, global: RawValue, function: RawValue)
    ensures
        all_lost(refused_global_calls(context, global, function)) == held(global).add(
            held(function),
        ),
        all_gained(refused_global_calls(context, global, function)) == Multiset::<
            RawValue,
        >::empty(),
{
    let free_global = SpecCall::FreeValue { context, value: global };
    let free_function = SpecCall::FreeValue { context, value: function };
    lemma_two(free_global, free_function);
    lemma_two(free_function, free_global);
    let calls = refused_global_calls(context, global, function);
    assert(all_lost(calls) =~= held(global).add(held(function)));
    assert(all_gained(calls) =~= Multiset::<RawValue>::empty());
}

/// Adding a global function leaves no reference behind, whatever its name and whatever the engine
/// answers: the function goes to the global object, or is given back, and the global object is
/// given back.
pub proof fn law_add_callback_keeps_no_reference(
    pending: AddGlobalPending,
    global: RawValue,
    step: Step<AddSetPending, Result<(), ExecutionError>>,
    status: i32,
    finished: Finished<Result<(), ExecutionError>>,
)
    requires
        call_ensures(AddGlobalPending::obtained, (pending, global), step),
        step.next matches Next::Await(next) ==> call_ensures(
            AddSetPending::done,
            (next, status),
            finished,
        ),
    ensures
        match step.next {
            Next::Return(_) => all_lost(step.issued()) == held(global).add(
                held(pending.function),
            ),
            Next::Await(_) => all_lost(step.issued() + finished.issued()) == held(global).add(
                held(pending.function),
            ),
        },
{
    let context = pending.context;
    let free_global = SpecCall::FreeValue { context, value: global };
    let set = set_global_call(context, global, pending.name@, pending.function);
    lemma_refused_global(context, global, pending.function);
    lemma_two(set, free_global);
    if can_set_global(global, pending.name@) {
        assert(step.issued() + finished.issued() =~= seq![set, free_global]);
        assert(held(pending.function).add(held(global)) =~= held(global).add(
            held(pending.function),
        ));
    }
}

/// Creating a global function that the caller gets too leaves the caller with one reference to the
/// function where there is no error, and with none where there is one. What the global object has
/// is a reference of its own, and the global object is given back.
pub proof fn law_create_callback_keeps_one_reference(
    pending: CallbackGlobalPending,
    global: RawValue,
    step: Step<CallbackSetPending, Result<OwnedValueRef, ExecutionError>>,
    status: i32,
    finished: Finished<Result<OwnedValueRef, ExecutionError>>,
)
    requires
        call_ensures(CallbackGlobalPending::obtained, (pending, global), step),
        step.next matches Next::Await(next) ==> call_ensures(
            CallbackSetPending::done,
            (next, status),
            finished,
        ),
    ensures
        ({
            let had = held(global).add(held(pending.function));
            match step.next {
                Next::Return(result) => {
                    &&& result is Err
                    &&& had.add(all_gained(step.issued())) == all_lost(step.issued())
                },
                Next::Await(_) => {
                    let calls = step.issued() + finished.issued();
                    match finished.result {
                        Ok(owned) => {
                            &&& owned.value == pending.function
                            &&& had.add(all_gained(calls)) == all_lost(calls).add(
                                held(pending.function),
                            )
                        },
                        Err(_) => had.add(all_gained(calls)) == all_lost(calls),
                    }
                },
            }
        }),
{
    let context = pending.context;
    let function = pending.function;
    let had = held(global).add(held(function));
    let dup = SpecCall::DupValue { context, value: function };
    let set = set_global_call(context, global, pending.name@, function);
    let free_global = SpecCall::FreeValue { context, value: global };
    let free_function = SpecCall::FreeValue { context, value: function };
    lemma_refused_global(context, global, function);
    if can_set_global(global, pending.name@) {
        lemma_two(dup, set);
        lemma_one(free_global);
        lemma_two(free_global, free_function);
        lemma_concat(step.issued(), finished.issued());
        let calls = step.issued() + finished.issued();
        assert(step.issued() =~= seq![dup, set]);
        if status < 0 {
            assert(had.add(all_gained(calls)) =~= all_lost(calls));
        } else {
            assert(had.add(all_gained(calls)) =~= all_lost(calls).add(held(function)));
        }
    } else {
        assert(had.add(all_gained(step.issued())) =~= all_lost(step.issued()));
    }
}

/// Throwing an error hands the reference to its value to the engine.
pub proof fn law_throw_hands_over(
    pending: ThrowPending,
    value: RawValue,
    finished: Finished<RawValue>,
)
    requires
        call_ensures(ThrowPending::encoded, (pending, value), finished),
    ensures
        all_lost(finished.issued()) == held(value),
        held(finished.result) == Multiset::<RawValue>::empty(),
{
    lemma_one(SpecCall::Throw { context: pending.context, value });
}

} // verus!
