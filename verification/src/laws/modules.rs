//! Native modules and imports, export by export and byte by byte.

use vstd::prelude::*;
use vstd::utf8::{decode_utf8, encode_utf8, valid_utf8};

use crate::call::{Asked, Finished, LoaderRef, Next, SpecCall, Step};
use crate::context::ContextWrapper;
use crate::cstring::{zero_free, CString};
use crate::error::{seen, ExecutionError, NulErrorOf, SpecExecutionError, SpecValueError};
use crate::laws::names::{lemma_clean, lemma_zero_at};
use crate::laws::{law_module_gets_all_exports, law_namespace_has_all_exports};
use crate::loader::{quickjs_rs_module_loader, CompilePending, LoadError, LoadPending};
use crate::module_builder::{
    c_name, dup_calls, first_unclean, free_calls, named, named_values, names_clean,
    property_calls, recorded, register_calls, seen_exports, seen_named, values,
    AddFunctionPending, BuildPending, NamespacePending, NativeModuleBuilder,
};
use crate::module_init::{
    export_calls, native_module_init, InitNamePending, InitTextPending,
};
use crate::registry::{exports_of, ModuleExportsData, NativeModules, SpecExport};
use crate::value::{Pointer, RawValue, TAG_EXCEPTION};

verus! {

/// A module starts under the name that it is given, without exports.
pub proof fn law_module_starts_empty(
    context: ContextWrapper,
    name: &str,
    builder: NativeModuleBuilder,
)
    requires
        call_ensures(ContextWrapper::create_module, (&context, name), builder),
    ensures
        builder.module_name@ == name@,
        builder.exports@.len() == 0,
{
    assert(seen_exports(builder.exports@).len() == builder.exports@.len());
}

/// An export is added behind those that are there, under the name, with the number of arguments
/// and with the function that it is given; the others stay, and so does the module's name.
pub proof fn law_export_is_added(
    builder: NativeModuleBuilder,
    context: &mut ContextWrapper,
    name: &str,
    arguments: usize,
    closure: u64,
    asked: Asked<AddFunctionPending>,
    function: RawValue,
    after: NativeModuleBuilder,
)
    requires
        call_ensures(
            NativeModuleBuilder::add_function,
            (builder, context, name, arguments, closure),
            asked,
        ),
        call_ensures(AddFunctionPending::created, (asked.pending, function), after),
    ensures
        asked.issued() == seq![
            SpecCall::NewFunction {
                context: old(context).context,
                closure,
                arguments: arguments as i32,
            },
        ],
        final(context).callbacks@ == old(context).callbacks@.push(closure),
        final(context).runtime == old(context).runtime,
        final(context).context == old(context).context,
        final(context).native_modules == old(context).native_modules,
        final(context).module_exports == old(context).module_exports,
        after.module_name@ == builder.module_name@,
        ({
            let n = builder.exports@.len() as int;
            &&& after.exports@.len() == n + 1
            &&& after.exports@[n].name@ == name@
            &&& after.exports@[n].arguments == arguments
            &&& after.exports@[n].function == function
            &&& forall|i: int|
                0 <= i < n ==> {
                    &&& (#[trigger] after.exports@[i]).name@ == builder.exports@[i].name@
                    &&& after.exports@[i].arguments == builder.exports@[i].arguments
                    &&& after.exports@[i].function == builder.exports@[i].function
                }
        }),
{
    let n = builder.exports@.len() as int;
    let before_seen = seen_exports(builder.exports@);
    let after_seen = seen_exports(after.exports@);
    assert(after_seen.len() == after.exports@.len());
    assert(after_seen == before_seen.push((name@, arguments, function)));
    assert(after_seen[n] == (name@, arguments, function));
    assert forall|i: int| 0 <= i < n implies {
        &&& (#[trigger] after.exports@[i]).name@ == builder.exports@[i].name@
        &&& after.exports@[i].arguments == builder.exports@[i].arguments
        &&& after.exports@[i].function == builder.exports@[i].function
    } by {
        assert(after_seen[i] == before_seen[i]);
    }
}

/// The engine is asked for a module of the builder's name, in the bytes of that name.
pub proof fn law_module_is_asked_for(
    builder: NativeModuleBuilder,
    context: ContextWrapper,
    step: Step<BuildPending, Result<RawValue, ExecutionError>>,
)
    requires
        !encode_utf8(builder.module_name@).contains(0u8),
        call_ensures(NativeModuleBuilder::build, (builder, &context), step),
    ensures
        step.issued() == seq![
            SpecCall::NewModule {
                context: context.context,
                name: encode_utf8(builder.module_name@),
            },
        ],
        step.next == Next::<_, Result<RawValue, ExecutionError>>::Await(BuildPending { builder }),
{
    lemma_clean(encode_utf8(builder.module_name@));
}

/// A module name with a zero byte is refused before anything is asked for.
pub proof fn law_module_name_is_refused(
    builder: NativeModuleBuilder,
    context: ContextWrapper,
    p: usize,
    step: Step<BuildPending, Result<RawValue, ExecutionError>>,
)
    requires
        p < encode_utf8(builder.module_name@).len(),
        encode_utf8(builder.module_name@)[p as int] == 0,
        !encode_utf8(builder.module_name@).take(p as int).contains(0u8),
        call_ensures(NativeModuleBuilder::build, (builder, &context), step),
    ensures
        step.issued().len() == 0,
        step.next matches Next::Return(result) && seen(result) == Err::<RawValue, _>(
            SpecExecutionError::Conversion(
                SpecValueError::StringWithZeroBytes(
                    NulErrorOf { position: p, bytes: encode_utf8(builder.module_name@) },
                ),
            ),
        ),
{
    lemma_zero_at(encode_utf8(builder.module_name@), p);
}

/// Once the engine has made the module, each export is registered with it under the very name that
/// it was added under, in order; each is recorded for the init callback, and kept for the
/// namespace, under that name and with its function; and the module is filed under its own name.
/// Nothing else of the context changes.
pub proof fn law_exports_keep_their_names(
    pending: BuildPending,
    context: &mut ContextWrapper,
    module: Pointer,
    step: Step<NamespacePending, Result<RawValue, ExecutionError>>,
)
    requires
        module != 0,
        forall|i: int|
            0 <= i < pending.builder.exports@.len() ==> !encode_utf8(
                (#[trigger] pending.builder.exports@[i]).name@,
            ).contains(0u8),
        call_ensures(BuildPending::created, (pending, context, module), step),
    ensures
        ({
            let exports = pending.builder.exports@;
            let n = exports.len() as int;
            let first = old(context).module_exports is None;
            &&& step.issued().len() == 2 * n + if first {
                2int
            } else {
                1int
            }
            &&& forall|i: int|
                #![trigger exports[i]]
                0 <= i < n ==> {
                    &&& step.issued()[i] == (SpecCall::AddModuleExport {
                        context: old(context).context,
                        module,
                        name: encode_utf8(exports[i].name@),
                    })
                    &&& step.issued()[n + i] == (SpecCall::DupValue {
                        context: old(context).context,
                        value: exports[i].function,
                    })
                }
            &&& first ==> step.issued()[2 * n] == (SpecCall::SetContextOpaque {
                context: old(context).context,
            })
            &&& step.issued().last() == (SpecCall::NewObject { context: old(context).context })
        }),
        ({
            let exports = pending.builder.exports@;
            let n = exports.len() as int;
            &&& step.next matches Next::Await(waiting) && waiting.context == old(context).context
                && waiting.exports@.len() == n && (forall|i: int|
                #![trigger exports[i]]
                0 <= i < n ==> waiting.exports@[i].0@ == encode_utf8(exports[i].name@)
                    && waiting.exports@[i].1 == exports[i].function)
        }),
        ({
            let exports = pending.builder.exports@;
            let n = exports.len() as int;
            let before = match old(context).module_exports {
                Some(data) => data@,
                None => Seq::empty(),
            };
            &&& final(context).module_exports matches Some(data) && data@.len() == before.len() + n
                && (forall|j: int| 0 <= j < before.len() ==> #[trigger] data@[j] == before[j])
                && (forall|i: int|
                #![trigger exports[i]]
                0 <= i < n ==> data@[before.len() + i] == (
                    pending.builder.module_name@,
                    encode_utf8(exports[i].name@),
                    exports[i].function,
                ))
        }),
        final(context).native_modules@ == old(context).native_modules@.insert(
            pending.builder.module_name@,
            module,
        ),
        final(context).runtime == old(context).runtime,
        final(context).context == old(context).context,
        final(context).callbacks == old(context).callbacks,
        final(context).module_loader == old(context).module_loader,
        final(context).rejection_tracker == old(context).rejection_tracker,
{
    let exports = pending.builder.exports@;
    let n = exports.len() as int;
    let entries = seen_exports(exports);
    let pointer = old(context).context;
    assert(entries.len() == n);
    assert forall|i: int| 0 <= i < n implies entries[i] == (
        exports[i].name@,
        exports[i].arguments,
        exports[i].function,
    ) && #[trigger] c_name(entries[i]) == encode_utf8(exports[i].name@) by {}
    assert(names_clean(entries)) by {
        assert forall|i: int| 0 <= i < entries.len() implies zero_free(
            c_name(#[trigger] entries[i]),
        ) by {
            lemma_clean(encode_utf8(exports[i].name@));
        }
    }
    let register = register_calls(pointer, module, entries);
    let dups = dup_calls(pointer, values(entries));
    assert(register.len() == n && dups.len() == n);
    assert forall|i: int|
        #![trigger exports[i]]
        0 <= i < n implies step.issued()[i] == register[i] && step.issued()[n + i] == dups[i] by {}
    assert forall|i: int|
        #![trigger exports[i]]
        0 <= i < n implies named(entries)[i] == (
        encode_utf8(exports[i].name@),
        exports[i].function,
    ) && recorded(pending.builder.module_name@, entries)[i] == (
        pending.builder.module_name@,
        encode_utf8(exports[i].name@),
        exports[i].function,
    ) by {}
    if let Next::Await(waiting) = step.next {
        let seen = seen_named(waiting.exports@);
        assert(seen.len() == waiting.exports@.len());
        assert forall|i: int|
            #![trigger exports[i]]
            0 <= i < n implies waiting.exports@[i].0@ == encode_utf8(exports[i].name@)
            && waiting.exports@[i].1 == exports[i].function by {
            assert(seen[i] == named(entries)[i]);
            assert(seen[i] == (waiting.exports@[i].0@, waiting.exports@[i].1));
        }
    }
}

/// A build ends at the first export name with a zero byte: the names before it are registered,
/// nothing is filed or recorded, and the error tells of that name.
pub proof fn law_export_name_is_refused(
    pending: BuildPending,
    context: &mut ContextWrapper,
    module: Pointer,
    k: int,
    p: usize,
    step: Step<NamespacePending, Result<RawValue, ExecutionError>>,
)
    requires
        module != 0,
        0 <= k < pending.builder.exports@.len(),
        forall|i: int|
            0 <= i < k ==> !encode_utf8(
                (#[trigger] pending.builder.exports@[i]).name@,
            ).contains(0u8),
        p < encode_utf8(pending.builder.exports@[k].name@).len(),
        encode_utf8(pending.builder.exports@[k].name@)[p as int] == 0,
        !encode_utf8(pending.builder.exports@[k].name@).take(p as int).contains(0u8),
        call_ensures(BuildPending::created, (pending, context, module), step),
    ensures
        step.issued().len() == k,
        forall|i: int|
            #![trigger pending.builder.exports@[i]]
            0 <= i < k ==> step.issued()[i] == (SpecCall::AddModuleExport {
                context: old(context).context,
                module,
                name: encode_utf8(pending.builder.exports@[i].name@),
            }),
        step.next matches Next::Return(result) && seen(result) == Err::<RawValue, _>(
            SpecExecutionError::Conversion(
                SpecValueError::StringWithZeroBytes(
                    NulErrorOf {
                        position: p,
                        bytes: encode_utf8(pending.builder.exports@[k].name@),
                    },
                ),
            ),
        ),
        *final(context) == *old(context),
{
    let exports = pending.builder.exports@;
    let entries = seen_exports(exports);
    lemma_zero_at(encode_utf8(exports[k].name@), p);
    assert(c_name(entries[k]) == encode_utf8(exports[k].name@));
    let head = entries.take(k);
    assert forall|i: int| 0 <= i < head.len() implies zero_free(
        c_name(#[trigger] head[i]),
    ) by {
        assert(head[i] == entries[i]);
        lemma_clean(encode_utf8(exports[i].name@));
    }
    assert(first_unclean(entries, k));
    let register = register_calls(old(context).context, module, head);
    assert(register.len() == k);
    assert forall|i: int|
        #![trigger exports[i]]
        0 <= i < k implies register[i] == (SpecCall::AddModuleExport {
        context: old(context).context,
        module,
        name: encode_utf8(exports[i].name@),
    }) by {
        assert(head[i] == entries[i]);
    }
}

/// Where the engine makes no module, each function is given back, in order, and nothing is kept.
pub proof fn law_module_that_is_not_made(
    pending: BuildPending,
    context: &mut ContextWrapper,
    step: Step<NamespacePending, Result<RawValue, ExecutionError>>,
)
    requires
        call_ensures(BuildPending::created, (pending, context, 0), step),
    ensures
        step.issued().len() == pending.builder.exports@.len(),
        forall|i: int|
            #![trigger pending.builder.exports@[i]]
            0 <= i < pending.builder.exports@.len() ==> step.issued()[i] == (SpecCall::FreeValue {
                context: old(context).context,
                value: pending.builder.exports@[i].function,
            }),
        step.next matches Next::Return(result) && seen(result) == Err::<RawValue, _>(
            SpecExecutionError::Internal("Failed to create native module"@),
        ),
        *final(context) == *old(context),
{
    let exports = pending.builder.exports@;
    let entries = seen_exports(exports);
    assert forall|i: int|
        #![trigger exports[i]]
        0 <= i < exports.len() implies values(entries)[i] == exports[i].function by {}
}

/// The namespace object gets each export as a property of its name, in order, with a reference made
/// for it; then the builder's reference to each is given back; and the object is the result.
pub proof fn law_namespace_gets_exports(
    pending: NamespacePending,
    namespace: RawValue,
    finished: Finished<Result<RawValue, ExecutionError>>,
)
    requires
        call_ensures(NamespacePending::created, (pending, namespace), finished),
    ensures
        ({
            let exports = pending.exports@;
            let n = exports.len() as int;
            &&& finished.issued().len() == 3 * n
            &&& forall|i: int|
                #![trigger exports[i]]
                0 <= i < n ==> {
                    &&& finished.issued()[2 * i] == (SpecCall::DupValue {
                        context: pending.context,
                        value: exports[i].1,
                    })
                    &&& finished.issued()[2 * i + 1] == (SpecCall::SetProperty {
                        context: pending.context,
                        object: namespace,
                        name: exports[i].0@,
                        value: exports[i].1,
                    })
                    &&& finished.issued()[2 * n + i] == (SpecCall::FreeValue {
                        context: pending.context,
                        value: exports[i].1,
                    })
                }
        }),
        finished.result == Ok::<RawValue, ExecutionError>(namespace),
{
    let exports = pending.exports@;
    let n = exports.len() as int;
    let seen = seen_named(exports);
    law_namespace_has_all_exports(pending.context, namespace, seen);
    let sets = property_calls(pending.context, namespace, seen);
    let frees = free_calls(pending.context, named_values(seen));
    assert(seen.len() == n && sets.len() == 2 * n && frees.len() == n);
    assert forall|i: int|
        #![trigger exports[i]]
        0 <= i < n implies {
        &&& finished.issued()[2 * i] == (SpecCall::DupValue {
            context: pending.context,
            value: exports[i].1,
        })
        &&& finished.issued()[2 * i + 1] == (SpecCall::SetProperty {
            context: pending.context,
            object: namespace,
            name: exports[i].0@,
            value: exports[i].1,
        })
        &&& finished.issued()[2 * n + i] == (SpecCall::FreeValue {
            context: pending.context,
            value: exports[i].1,
        })
    } by {
        assert(seen[i] == (exports[i].0@, exports[i].1));
        assert(finished.issued()[2 * i] == sets[2 * i]);
        assert(finished.issued()[2 * i + 1] == sets[2 * i + 1]);
        assert(finished.issued()[2 * n + i] == frees[i]);
    }
}

/// The init callback asks for the name of its module, and for the text of that name; without export
/// data it fails at once.
pub proof fn law_init_asks_for_the_name(
    context: Pointer,
    module: Pointer,
    has_data: bool,
    step: Step<InitNamePending, i32>,
    atom: u32,
    asked: Asked<InitTextPending>,
)
    requires
        call_ensures(native_module_init, (context, module, has_data), step),
        step.next matches Next::Await(pending) ==> call_ensures(
            InitNamePending::named,
            (pending, atom),
            asked,
        ),
    ensures
        !has_data ==> step.issued().len() == 0 && (step.next matches Next::Return(status) && status
            == -1),
        has_data ==> {
            &&& step.issued() == seq![SpecCall::GetModuleName { context, module }]
            &&& asked.issued() == seq![SpecCall::AtomToCString { context, atom }]
            &&& asked.pending == (InitTextPending { context, module, atom })
        },
{
}

/// Without exports in the export data, the init callback gives back the text and the atom of the
/// name, and is done.
pub proof fn law_init_without_exports(
    pending: InitTextPending,
    text: Pointer,
    bytes: &[u8],
    data: ModuleExportsData,
    finished: Finished<i32>,
)
    requires
        text != 0,
        valid_utf8(bytes@),
        data@.len() == 0,
        call_ensures(InitTextPending::converted, (pending, text, bytes, &data), finished),
    ensures
        finished.issued() == seq![
            SpecCall::FreeCString { context: pending.context, text },
            SpecCall::FreeAtom { context: pending.context, atom: pending.atom },
        ],
        finished.result == 0,
{
    assert(exports_of(data@, decode_utf8(bytes@)).len() == 0);
    assert(finished.issued() =~= seq![
        SpecCall::FreeCString { context: pending.context, text },
        SpecCall::FreeAtom { context: pending.context, atom: pending.atom },
    ]);
}

/// One more entry in the export data adds just one export to what the init callback hands over,
/// behind the others, under its name and with a reference made for it, where the entry is of the
/// module's name. One of another name adds nothing.
pub proof fn law_init_hands_over_entry(
    pending: InitTextPending,
    text: Pointer,
    bytes: &[u8],
    before: ModuleExportsData,
    after: ModuleExportsData,
    module_name: Seq<char>,
    name: Seq<u8>,
    value: RawValue,
    less: Finished<i32>,
    more: Finished<i32>,
)
    requires
        text != 0,
        valid_utf8(bytes@),
        after@ == before@.push((module_name, name, value)),
        call_ensures(InitTextPending::converted, (pending, text, bytes, &before), less),
        call_ensures(InitTextPending::converted, (pending, text, bytes, &after), more),
    ensures
        more.issued() == if module_name == decode_utf8(bytes@) {
            less.issued() + seq![
                SpecCall::DupValue { context: pending.context, value },
                SpecCall::SetModuleExport {
                    context: pending.context,
                    module: pending.module,
                    name,
                    value,
                },
            ]
        } else {
            less.issued()
        },
        less.result == 0 && more.result == 0,
{
    assert(after@.drop_last() =~= before@);
    let own = decode_utf8(bytes@);
    if module_name == own {
        let old_exports = exports_of(before@, own);
        let new_exports = exports_of(after@, own);
        assert(new_exports == old_exports.push((name, value)));
        assert(new_exports.drop_last() =~= old_exports);
        assert(more.issued() =~= less.issued() + seq![
            SpecCall::DupValue { context: pending.context, value },
            SpecCall::SetModuleExport {
                context: pending.context,
                module: pending.module,
                name,
                value,
            },
        ]);
    }
}

/// The init callback of a module whose exports alone stand in the export data hands over each of
/// them, in order.
pub proof fn law_init_hands_over_all(
    pending: InitTextPending,
    text: Pointer,
    bytes: &[u8],
    data: ModuleExportsData,
    finished: Finished<i32>,
)
    requires
        text != 0,
        valid_utf8(bytes@),
        forall|i: int|
            0 <= i < data@.len() ==> (#[trigger] data@[i]).0 == decode_utf8(bytes@),
        call_ensures(InitTextPending::converted, (pending, text, bytes, &data), finished),
    ensures
        finished.issued().len() == 2 + 2 * data@.len(),
        forall|i: int|
            #![trigger data@[i]]
            0 <= i < data@.len() ==> {
                &&& finished.issued()[2 + 2 * i] == (SpecCall::DupValue {
                    context: pending.context,
                    value: data@[i].2,
                })
                &&& finished.issued()[3 + 2 * i] == (SpecCall::SetModuleExport {
                    context: pending.context,
                    module: pending.module,
                    name: data@[i].1,
                    value: data@[i].2,
                })
            },
        finished.result == 0,
{
    let own = decode_utf8(bytes@);
    lemma_own_exports(data@, own);
    let exports = exports_of(data@, own);
    law_module_gets_all_exports(pending.context, pending.module, exports);
    let calls = export_calls(pending.context, pending.module, exports);
    assert forall|i: int|
        #![trigger data@[i]]
        0 <= i < data@.len() implies {
        &&& finished.issued()[2 + 2 * i] == (SpecCall::DupValue {
            context: pending.context,
            value: data@[i].2,
        })
        &&& finished.issued()[3 + 2 * i] == (SpecCall::SetModuleExport {
            context: pending.context,
            module: pending.module,
            name: data@[i].1,
            value: data@[i].2,
        })
    } by {
        assert(exports[i] == (data@[i].1, data@[i].2));
        assert(finished.issued()[2 + 2 * i] == calls[2 * i]);
        assert(finished.issued()[3 + 2 * i] == calls[2 * i + 1]);
    }
}

proof fn lemma_own_exports(data: Seq<SpecExport>, own: Seq<char>)
    requires
        forall|i: int| 0 <= i < data.len() ==> (#[trigger] data[i]).0 == own,
    ensures
        exports_of(data, own).len() == data.len(),
        forall|i: int|
            0 <= i < data.len() ==> #[trigger] exports_of(data, own)[i] == (data[i].1, data[i].2),
    decreases data.len(),
{
    if data.len() > 0 {
        let before = data.drop_last();
        assert forall|i: int| 0 <= i < before.len() implies (#[trigger] before[i]).0 == own by {
            assert(before[i] == data[i]);
        }
        lemma_own_exports(before, own);
        assert forall|i: int| 0 <= i < data.len() implies #[trigger] exports_of(data, own)[i] == (
            data[i].1,
            data[i].2,
        ) by {
            if i < before.len() {
                assert(before[i] == data[i]);
                assert(exports_of(before, own)[i] == (before[i].1, before[i].2));
            }
        }
    }
}

/// A name that is null, or not text, fails the init callback; what was asked for is given back.
pub proof fn law_init_fails(
    pending: InitTextPending,
    text: Pointer,
    bytes: &[u8],
    data: ModuleExportsData,
    finished: Finished<i32>,
)
    requires
        text == 0 || !valid_utf8(bytes@),
        call_ensures(InitTextPending::converted, (pending, text, bytes, &data), finished),
    ensures
        finished.result == -1,
        text == 0 ==> finished.issued() == seq![
            SpecCall::FreeAtom { context: pending.context, atom: pending.atom },
        ],
        text != 0 ==> finished.issued() == seq![
            SpecCall::FreeCString { context: pending.context, text },
            SpecCall::FreeAtom { context: pending.context, atom: pending.atom },
        ],
{
}

/// A module that is filed is found under its name, and every other name is answered as before.
pub proof fn law_filed_module_is_found(
    modules: &mut NativeModules,
    name: String,
    module: Pointer,
    asked: &str,
    before: Option<Pointer>,
    after: Option<Pointer>,
)
    requires
        call_ensures(NativeModules::insert, (modules, name, module), ()),
        call_ensures(NativeModules::get, (&*old(modules), asked), before),
        call_ensures(NativeModules::get, (&*final(modules), asked), after),
    ensures
        after == if asked@ == name@ {
            Some(module)
        } else {
            before
        },
{
}

/// Where nothing has been filed, no name is found.
pub proof fn law_nothing_is_filed(modules: NativeModules, asked: &str, found: Option<Pointer>)
    requires
        call_ensures(NativeModules::new, (), modules),
        call_ensures(NativeModules::get, (&modules, asked), found),
    ensures
        found is None,
{
}

/// An export that is added to the export data is read back as it was added, behind the others.
pub proof fn law_recorded_export_is_read(
    data: &mut ModuleExportsData,
    module: &str,
    name: CString,
    value: RawValue,
    i: usize,
    len: usize,
    read_name: CString,
    read_value: RawValue,
    own: bool,
    other: &str,
)
    requires
        i == old(data)@.len(),
        call_ensures(ModuleExportsData::add_export, (data, module, name, value), ()),
        call_ensures(ModuleExportsData::len, (&*final(data),), len),
        call_ensures(ModuleExportsData::name, (&*final(data), i), read_name),
        call_ensures(ModuleExportsData::value, (&*final(data), i), read_value),
        call_ensures(ModuleExportsData::belongs, (&*final(data), i, other), own),
    ensures
        len == i + 1,
        read_name@ == name@,
        read_value == value,
        own == (other@ == module@),
{
}

/// An import of a module that is not native asks the loader for it by its name, and has what comes
/// back compiled: all of its bytes, under that name, as a module that is not run.
pub proof fn law_import_compiles_the_source(
    context: Pointer,
    name: CString,
    modules: NativeModules,
    loader: Option<LoaderRef>,
    step: Step<LoadPending, Pointer>,
    source: String,
    compile: Step<CompilePending, Pointer>,
)
    requires
        loader is Some,
        valid_utf8(name@),
        !modules@.contains_key(decode_utf8(name@)),
        encode_utf8(source@).len() <= usize::MAX,
        call_ensures(quickjs_rs_module_loader, (context, &name, &modules, loader), step),
        step.next matches Next::Await(pending) ==> call_ensures(
            LoadPending::loaded,
            (pending, Ok(source)),
            compile,
        ),
    ensures
        step.issued() == seq![
            SpecCall::LoadModule { loader: loader->0, name: decode_utf8(name@) },
        ],
        compile.issued().len() == 1,
        compile.issued()[0] matches SpecCall::Eval {
            context: in_context,
            code,
            length,
            filename,
            flags,
        } && in_context == context && code == encode_utf8(source@) && length == encode_utf8(
            source@,
        ).len() && filename == name@ && flags == 33,
        compile.next == Next::<_, Pointer>::Await(CompilePending { context }),
{
}

/// An import finds no module where its name is not text, where there is no loader, where the loader
/// has no source, and where the source cannot be compiled.
pub proof fn law_import_finds_no_module(
    context: Pointer,
    name: CString,
    modules: NativeModules,
    loader: Option<LoaderRef>,
    step: Step<LoadPending, Pointer>,
    pending: LoadPending,
    error: LoadError,
    unloaded: Step<CompilePending, Pointer>,
    compile: CompilePending,
    function: RawValue,
    uncompiled: Finished<Pointer>,
)
    requires
        !valid_utf8(name@) || (loader is None && !modules@.contains_key(decode_utf8(name@))),
        function.tag == TAG_EXCEPTION,
        call_ensures(quickjs_rs_module_loader, (context, &name, &modules, loader), step),
        call_ensures(LoadPending::loaded, (pending, Err(error)), unloaded),
        call_ensures(CompilePending::compiled, (compile, function), uncompiled),
    ensures
        step.issued().len() == 0 && step.next == Next::<LoadPending, Pointer>::Return(0),
        unloaded.issued().len() == 0 && unloaded.next == Next::<CompilePending, Pointer>::Return(0),
        uncompiled.issued().len() == 0 && uncompiled.result == 0,
{
}

/// A compiled module is named by its address, when its `import.meta` is set and the reference to it
/// given back.
pub proof fn law_compiled_module_is_found(
    pending: CompilePending,
    function: RawValue,
    finished: Finished<Pointer>,
)
    requires
        function.tag != TAG_EXCEPTION,
        call_ensures(CompilePending::compiled, (pending, function), finished),
    ensures
        finished.result == function.payload,
        finished.issued() == seq![
            SpecCall::SetImportMeta {
                context: pending.context,
                function,
                use_realpath: false,
                is_main: false,
            },
            SpecCall::FreeValue { context: pending.context, value: function },
        ],
{
}

} // verus!
