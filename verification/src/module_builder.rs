//! Native modules: modules whose exports are host functions.

use vstd::prelude::*;
use vstd::string::*;
use vstd::utf8::encode_utf8;

use crate::call::{add_call, none, one, seen_calls, Asked, Call, Finished, Next, SpecCall, Step};
use crate::context::ContextWrapper;
use crate::cstring::{make_cstring, zero_byte_error, zero_free, CString};
use crate::error::{seen, ExecutionError, SpecExecutionError};
use crate::registry::{ModuleExportsData, SpecExport};
use crate::value::{Pointer, RawValue};

verus! {

/// A function that a module is to export.
#[derive(Debug, PartialEq, Eq)]
pub struct Export {
    pub name: String,
    pub arguments: usize,
    pub function: RawValue,
}

/// An export in contracts: its name, its number of arguments, its function.
pub type SpecExportEntry = (Seq<char>, usize, RawValue);

/// The exports of a list, in contracts.
pub open spec fn seen_exports(exports: Seq<Export>) -> Seq<SpecExportEntry> {
    exports.map_values(|e: Export| (e.name@, e.arguments, e.function))
}

/// Collects the exports of a native module. It owns one reference to each function.
#[derive(Debug, PartialEq, Eq)]
pub struct NativeModuleBuilder {
    pub module_name: String,
    pub exports: Vec<Export>,
}

/// The function for an export has been asked for.
#[derive(Debug, PartialEq, Eq)]
pub struct AddFunctionPending {
    pub builder: NativeModuleBuilder,
    pub name: String,
    pub arguments: usize,
}

/// The module has been asked for.
#[derive(Debug, PartialEq, Eq)]
pub struct BuildPending {
    pub builder: NativeModuleBuilder,
}

/// The module stands, and the object for its namespace has been asked for.
#[derive(Debug, PartialEq, Eq)]
pub struct NamespacePending {
    pub context: Pointer,
    pub exports: Vec<(CString, RawValue)>,
}

/// An export of the pending namespace, in contracts.
pub open spec fn seen_named(exports: Seq<(CString, RawValue)>) -> Seq<(Seq<u8>, RawValue)> {
    exports.map_values(|e: (CString, RawValue)| (e.0@, e.1))
}

/// The C string for a name.
pub open spec fn c_name(e: SpecExportEntry) -> Seq<u8> {
    encode_utf8(e.0)
}

/// The exports by their C names.
pub open spec fn named(exports: Seq<SpecExportEntry>) -> Seq<(Seq<u8>, RawValue)> {
    exports.map_values(|e: SpecExportEntry| (c_name(e), e.2))
}

/// The exports as the export data of a context records them.
pub open spec fn recorded(module: Seq<char>, exports: Seq<SpecExportEntry>) -> Seq<SpecExport> {
    exports.map_values(|e: SpecExportEntry| (module, c_name(e), e.2))
}

/// The values of the exports.
pub open spec fn values(exports: Seq<SpecExportEntry>) -> Seq<RawValue> {
    exports.map_values(|e: SpecExportEntry| e.2)
}

/// One `FreeValue` for each value.
pub open spec fn free_calls(context: Pointer, values: Seq<RawValue>) -> Seq<SpecCall> {
    values.map_values(|value: RawValue| SpecCall::FreeValue { context, value })
}

/// One `DupValue` for each value.
pub open spec fn dup_calls(context: Pointer, values: Seq<RawValue>) -> Seq<SpecCall> {
    values.map_values(|value: RawValue| SpecCall::DupValue { context, value })
}

/// One `AddModuleExport` for each name.
pub open spec fn register_calls(
    context: Pointer,
    module: Pointer,
    exports: Seq<SpecExportEntry>,
) -> Seq<SpecCall> {
    exports.map_values(
        |e: SpecExportEntry| SpecCall::AddModuleExport { context, module, name: c_name(e) },
    )
}

/// For each export one more reference, handed to a property of the namespace object.
pub open spec fn property_calls(
    context: Pointer,
    namespace: RawValue,
    exports: Seq<(Seq<u8>, RawValue)>,
) -> Seq<SpecCall>
    decreases exports.len(),
{
    if exports.len() == 0 {
        Seq::empty()
    } else {
        let (name, value) = exports.last();
        property_calls(context, namespace, exports.drop_last()).push(
            SpecCall::DupValue { context, value },
        ).push(SpecCall::SetProperty { context, object: namespace, name, value })
    }
}

/// Whether all names can be handed to the engine.
pub open spec fn names_clean(exports: Seq<SpecExportEntry>) -> bool {
    forall|i: int| 0 <= i < exports.len() ==> zero_free(c_name(#[trigger] exports[i]))
}

/// Whether export number `k` is the first whose name holds a zero byte.
pub open spec fn first_unclean(exports: Seq<SpecExportEntry>, k: int) -> bool {
    &&& 0 <= k < exports.len()
    &&& !zero_free(c_name(exports[k]))
    &&& names_clean(exports.take(k))
}

impl NativeModuleBuilder {
    /// The exports so far, in order.
    pub open spec fn entries(&self) -> Seq<SpecExportEntry> {
        seen_exports(self.exports@)
    }

    /// Asks for the function of an export. The closure behind it is kept alive with the context.
    pub fn add_function(
        self,
        context: &mut ContextWrapper,
        name: &str,
        arguments: usize,
        closure: u64,
    ) -> (asked: Asked<AddFunctionPending>)
        ensures
            asked.issued() == seq![
                SpecCall::NewFunction {
                    context: old(context).context,
                    closure,
                    arguments: arguments as i32,
                },
            ],
            asked.pending.builder == self,
            asked.pending.name@ == name@,
            asked.pending.arguments == arguments,
            final(context).callbacks@ == old(context).callbacks@.push(closure),
            *final(context) == (ContextWrapper {
                callbacks: final(context).callbacks,
                ..*old(context)
            }),
    {
        context.callbacks.push(closure);
        Asked {
            calls: one(
                Call::NewFunction {
                    context: context.context,
                    closure,
                    arguments: #[verifier::truncate] (arguments as i32),
                },
            ),
            pending: AddFunctionPending { builder: self, name: name.to_owned(), arguments },
        }
    }

    /// Starts to create the module: asks the engine for a module of that name. A name that holds
    /// a zero byte is refused; the references to the functions are then not given back.
    pub fn build(self, context: &ContextWrapper) -> (step: Step<
        BuildPending,
        Result<RawValue, ExecutionError>,
    >)
        ensures
            match step.next {
                Next::Await(pending) => {
                    &&& zero_free(encode_utf8(self.module_name@))
                    &&& step.issued() == seq![
                        SpecCall::NewModule {
                            context: context.context,
                            name: encode_utf8(self.module_name@),
                        },
                    ]
                    &&& pending.builder == self
                },
                Next::Return(result) => {
                    &&& !zero_free(encode_utf8(self.module_name@))
                    &&& step.issued() == Seq::<SpecCall>::empty()
                    &&& seen(result) == Err::<RawValue, _>(
                        SpecExecutionError::Conversion(
                            zero_byte_error(encode_utf8(self.module_name@)),
                        ),
                    )
                },
            },
    {
        match make_cstring(self.module_name.as_str().as_bytes_vec()) {
            Ok(name) => Step {
                calls: one(Call::NewModule { context: context.context, name }),
                next: Next::Await(BuildPending { builder: self }),
            },
            Err(error) => Step {
                calls: none(),
                next: Next::Return(Err(ExecutionError::Conversion(error))),
            },
        }
    }
}

impl AddFunctionPending {
    /// Adds the function to the exports.
    pub fn created(self, function: RawValue) -> (builder: NativeModuleBuilder)
        ensures
            builder.module_name == self.builder.module_name,
            builder.entries() == self.builder.entries().push(
                (self.name@, self.arguments, function),
            ),
    {
        let mut builder: NativeModuleBuilder = self.builder;
        builder.exports.push(Export { name: self.name, arguments: self.arguments, function });
        assert(builder.entries() =~= self.builder.entries().push(
            (self.name@, self.arguments, function),
        ));
        builder
    }
}

/// Frees each function of a list.
fn free_exports(context: Pointer, exports: &Vec<Export>) -> (calls: Vec<Call>)
    ensures
        seen_calls(calls@) == free_calls(context, values(seen_exports(exports@))),
{
    let ghost all = free_calls(context, values(seen_exports(exports@)));
    let mut calls: Vec<Call> = none();
    let mut i: usize = 0;
    while i < exports.len()
        invariant
            i <= exports@.len(),
            all == free_calls(context, values(seen_exports(exports@))),
            seen_calls(calls@) == all.take(i as int),
        decreases exports@.len() - i,
    {
        add_call(&mut calls, Call::FreeValue { context, value: exports[i].function });
        assert(all.take(i + 1) =~= all.take(i as int).push(all[i as int]));
        i = i + 1;
    }
    assert(all.take(i as int) =~= all);
    calls
}

impl BuildPending {
    /// Takes the module that the engine created, or null.
    ///
    /// Without a module each function is freed. With one, the export names are registered with
    /// it, the module is filed under its name, and the exports are recorded for its init
    /// callback, with a reference to each function. A name that holds a zero byte ends the
    /// operation where it stands; the references to the functions are then not given back.
    pub fn created(self, context: &mut ContextWrapper, module: Pointer) -> (step: Step<
        NamespacePending,
        Result<RawValue, ExecutionError>,
    >)
        ensures
            module == 0 ==> {
                &&& step.issued() == free_calls(
                    old(context).context,
                    values(self.builder.entries()),
                )
                &&& step.next matches Next::Return(result) && seen(result) == Err::<RawValue, _>(
                    SpecExecutionError::Internal("Failed to create native module"@),
                )
                &&& *final(context) == *old(context)
            },
            module != 0 && names_clean(self.builder.entries()) ==> {
                &&& step.issued() == build_calls(
                    old(context).context,
                    module,
                    self.builder.entries(),
                    old(context).module_exports is None,
                )
                &&& step.next matches Next::Await(pending) && pending.context
                    == old(context).context && seen_named(pending.exports@) == named(
                    self.builder.entries(),
                )
                &&& final(context).native_modules@ == old(context).native_modules@.insert(
                    self.builder.module_name@,
                    module,
                )
                &&& final(context).module_exports is Some
                &&& final(context).export_data() == old(context).export_data() + recorded(
                    self.builder.module_name@,
                    self.builder.entries(),
                )
                &&& *final(context) == (ContextWrapper {
                    native_modules: final(context).native_modules,
                    module_exports: final(context).module_exports,
                    ..*old(context)
                })
            },
            forall|k: int|
                module != 0 && #[trigger] first_unclean(self.builder.entries(), k) ==> {
                    &&& step.issued() == register_calls(
                        old(context).context,
                        module,
                        self.builder.entries().take(k),
                    )
                    &&& step.next matches Next::Return(result) && seen(result) == Err::<
                        RawValue,
                        _,
                    >(
                        SpecExecutionError::Conversion(
                            zero_byte_error(c_name(self.builder.entries()[k])),
                        ),
                    )
                    &&& *final(context) == *old(context)
                },
    {
        let pointer: Pointer = context.context;
        let ghost entries = self.builder.entries();
        if module == 0 {
            return Step {
                calls: free_exports(pointer, &self.builder.exports),
                next: Next::Return(
                    Err(ExecutionError::Internal("Failed to create native module".to_owned())),
                ),
            };
        }
        let exports: &Vec<Export> = &self.builder.exports;
        let ghost register = register_calls(pointer, module, entries);
        let mut calls: Vec<Call> = none();
        let mut names: Vec<(CString, RawValue)> = Vec::new();
        assert(register.take(0) =~= Seq::<SpecCall>::empty());
        assert(seen_named(names@) =~= named(entries).take(0));
        let mut i: usize = 0;
        while i < exports.len()
            invariant
                i <= exports@.len(),
                entries == seen_exports(exports@),
                exports@ == self.builder.exports@,
                register == register_calls(pointer, module, entries),
                module != 0,
                pointer == old(context).context,
                *context == *old(context),
                seen_calls(calls@) == register.take(i as int),
                seen_named(names@) == named(entries).take(i as int),
                names_clean(entries.take(i as int)),
            decreases exports@.len() - i,
        {
            match make_cstring(exports[i].name.as_str().as_bytes_vec()) {
                Ok(name) => {
                    let copy: CString = name.duplicate();
                    add_call(
                        &mut calls,
                        Call::AddModuleExport { context: pointer, module, name },
                    );
                    assert(register.take(i + 1) =~= register.take(i as int).push(
                        register[i as int],
                    ));
                    let ghost before = names@;
                    names.push((copy, exports[i].function));
                    proof {
                        assert(seen_named(names@) =~= seen_named(before).push(
                            named(entries)[i as int],
                        ));
                        assert(named(entries).take(i + 1) =~= named(entries).take(i as int).push(
                            named(entries)[i as int],
                        ));
                        let next = entries.take(i + 1);
                        assert forall|j: int| 0 <= j < next.len() implies zero_free(
                            c_name(#[trigger] next[j]),
                        ) by {
                            if j < i {
                                assert(next[j] == entries.take(i as int)[j]);
                            }
                        }
                    }
                    i = i + 1;
                },
                Err(error) => {
                    proof {
                        assert(first_unclean(entries, i as int));
                        assert forall|k: int| #[trigger] first_unclean(entries, k) implies k
                            == i by {
                            if k < i {
                                assert(entries.take(i as int)[k] == entries[k]);
                            } else if i < k {
                                assert(entries.take(k)[i as int] == entries[i as int]);
                            }
                        }
                        assert(register.take(i as int) =~= register_calls(
                            pointer,
                            module,
                            entries.take(i as int),
                        ));
                        assert(!names_clean(entries)) by {
                            assert(!zero_free(c_name(entries[i as int])));
                        }
                    }
                    return Step {
                        calls,
                        next: Next::Return(Err(ExecutionError::Conversion(error))),
                    };
                },
            }
        }
        proof {
            assert(entries.take(i as int) =~= entries);
            assert(register.take(i as int) =~= register);
            assert(named(entries).take(i as int) =~= named(entries));
            assert forall|k: int| !first_unclean(entries, k) by {
                if first_unclean(entries, k) {
                    assert(zero_free(c_name(entries[k])));
                }
            }
        }
        let name: String = self.builder.module_name.clone();
        let first: bool = context.module_exports.is_none();
        context.native_modules.insert(name.clone(), module);
        let mut data: ModuleExportsData = match context.module_exports.take() {
            Some(data) => data,
            None => ModuleExportsData::new(),
        };
        let ghost before = data@;
        let ghost dups = dup_calls(pointer, values(entries));
        let ghost records = recorded(name@, entries);
        assert(register + dups.take(0) =~= register);
        assert(before + records.take(0) =~= before);
        assert(seen_named(names@).len() == named(entries).len());
        let mut j: usize = 0;
        while j < names.len()
            invariant
                j <= names@.len() == entries.len(),
                seen_named(names@) == named(entries),
                dups == dup_calls(pointer, values(entries)),
                records == recorded(name@, entries),
                seen_calls(calls@) == register + dups.take(j as int),
                data@ == before + records.take(j as int),
            decreases names@.len() - j,
        {
            assert(named(entries)[j as int] == (names@[j as int].0@, names@[j as int].1));
            add_call(&mut calls, Call::DupValue { context: pointer, value: names[j].1 });
            assert(register + dups.take(j + 1) =~= (register + dups.take(j as int)).push(
                dups[j as int],
            ));
            data.add_export(name.as_str(), names[j].0.duplicate(), names[j].1);
            assert(before + records.take(j + 1) =~= (before + records.take(j as int)).push(
                records[j as int],
            ));
            j = j + 1;
        }
        proof {
            assert(dups.take(j as int) =~= dups);
            assert(records.take(j as int) =~= records);
        }
        context.module_exports = Some(data);
        if first {
            add_call(&mut calls, Call::SetContextOpaque { context: pointer });
        }
        add_call(&mut calls, Call::NewObject { context: pointer });
        assert(seen_calls(calls@) =~= build_calls(pointer, module, entries, first));
        Step {
            calls,
            next: Next::Await(NamespacePending { context: pointer, exports: names }),
        }
    }
}

/// The calls that set up a module: its names registered, a reference to each function, the export
/// data made known to the engine where it is new, and the object for the namespace.
pub open spec fn build_calls(
    context: Pointer,
    module: Pointer,
    exports: Seq<SpecExportEntry>,
    first: bool,
) -> Seq<SpecCall> {
    let opaque = if first {
        seq![SpecCall::SetContextOpaque { context }]
    } else {
        Seq::<SpecCall>::empty()
    };
    register_calls(context, module, exports) + dup_calls(context, values(exports)) + opaque + seq![
        SpecCall::NewObject { context },
    ]
}

/// The values of the exports of a pending namespace.
pub open spec fn named_values(exports: Seq<(Seq<u8>, RawValue)>) -> Seq<RawValue> {
    exports.map_values(|e: (Seq<u8>, RawValue)| e.1)
}

impl NamespacePending {
    /// Takes the object for the namespace: gives it each export as a property, with a reference
    /// of its own, and frees the references that the builder had. The object is the result.
    pub fn created(self, namespace: RawValue) -> (finished: Finished<
        Result<RawValue, ExecutionError>,
    >)
        ensures
            finished.issued() == property_calls(
                self.context,
                namespace,
                seen_named(self.exports@),
            ) + free_calls(self.context, named_values(seen_named(self.exports@))),
            finished.result == Ok::<RawValue, ExecutionError>(namespace),
    {
        let ghost exports = seen_named(self.exports@);
        let mut calls: Vec<Call> = none();
        assert(exports.take(0) =~= Seq::empty());
        let mut i: usize = 0;
        while i < self.exports.len()
            invariant
                i <= self.exports@.len(),
                exports == seen_named(self.exports@),
                seen_calls(calls@) == property_calls(
                    self.context,
                    namespace,
                    exports.take(i as int),
                ),
            decreases self.exports@.len() - i,
        {
            let value: RawValue = self.exports[i].1;
            add_call(&mut calls, Call::DupValue { context: self.context, value });
            add_call(
                &mut calls,
                Call::SetProperty {
                    context: self.context,
                    object: namespace,
                    name: self.exports[i].0.duplicate(),
                    value,
                },
            );
            proof {
                let next = exports.take(i + 1);
                assert(next.drop_last() =~= exports.take(i as int));
                assert(next.last() == exports[i as int]);
            }
            i = i + 1;
        }
        assert(exports.take(i as int) =~= exports);
        let ghost properties = property_calls(self.context, namespace, exports);
        let ghost frees = free_calls(self.context, named_values(exports));
        assert(properties + frees.take(0) =~= properties);
        let mut j: usize = 0;
        while j < self.exports.len()
            invariant
                j <= self.exports@.len(),
                exports == seen_named(self.exports@),
                frees == free_calls(self.context, named_values(exports)),
                seen_calls(calls@) == properties + frees.take(j as int),
            decreases self.exports@.len() - j,
        {
            add_call(
                &mut calls,
                Call::FreeValue { context: self.context, value: self.exports[j].1 },
            );
            assert(properties + frees.take(j + 1) =~= (properties + frees.take(j as int)).push(
                frees[j as int],
            ));
            j = j + 1;
        }
        assert(frees.take(j as int) =~= frees);
        Finished { calls, result: Ok(namespace) }
    }
}

} // verus!
