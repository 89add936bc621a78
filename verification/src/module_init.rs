//! The init callback of native modules, which the engine calls when such a module is evaluated.

use vstd::prelude::*;
use vstd::utf8::{decode_utf8, encode_utf8_decode_utf8, valid_utf8};

use crate::call::{
    add_call, none, one, seen_calls, two, Asked, Call, Finished, Next, SpecCall, Step,
};
use crate::registry::{exports_of, ModuleExportsData, SpecExport};
use crate::text::text_from_utf8;
use crate::value::{Pointer, RawValue};

verus! {

/// The name of the module has been asked for.
#[derive(Debug, PartialEq, Eq)]
pub struct InitNamePending {
    pub context: Pointer,
    pub module: Pointer,
}

/// The text of the name has been asked for.
#[derive(Debug, PartialEq, Eq)]
pub struct InitTextPending {
    pub context: Pointer,
    pub module: Pointer,
    pub atom: u32,
}

/// For each export one more reference, handed to the module.
pub open spec fn export_calls(
    context: Pointer,
    module: Pointer,
    exports: Seq<(Seq<u8>, RawValue)>,
) -> Seq<SpecCall>
    decreases exports.len(),
{
    if exports.len() == 0 {
        Seq::empty()
    } else {
        let (name, value) = exports.last();
        export_calls(context, module, exports.drop_last()).push(
            SpecCall::DupValue { context, value },
        ).push(SpecCall::SetModuleExport { context, module, name, value })
    }
}

/// Starts the init callback for `module`. It fails where the context has no export data.
pub fn native_module_init(context: Pointer, module: Pointer, has_data: bool) -> (step: Step<
    InitNamePending,
    i32,
>)
    ensures
        if has_data {
            &&& step.issued() == seq![SpecCall::GetModuleName { context, module }]
            &&& step.next == Next::<_, i32>::Await(InitNamePending { context, module })
        } else {
            &&& step.issued() == Seq::<SpecCall>::empty()
            &&& step.next matches Next::Return(status) && status == -1
        },
{
    if has_data {
        Step {
            calls: one(Call::GetModuleName { context, module }),
            next: Next::Await(InitNamePending { context, module }),
        }
    } else {
        Step { calls: none(), next: Next::Return(-1) }
    }
}

impl InitNamePending {
    /// Takes the name, as an atom.
    pub fn named(self, atom: u32) -> (asked: Asked<InitTextPending>)
        ensures
            asked.issued() == seq![SpecCall::AtomToCString { context: self.context, atom }],
            asked.pending == (InitTextPending {
                context: self.context,
                module: self.module,
                atom,
            }),
    {
        Asked {
            calls: one(Call::AtomToCString { context: self.context, atom }),
            pending: InitTextPending { context: self.context, module: self.module, atom },
        }
    }
}

/// Hands each export of the module `name` to the module.
fn set_exports(
    calls: &mut Vec<Call>,
    context: Pointer,
    module: Pointer,
    name: &str,
    data: &ModuleExportsData,
)
    ensures
        seen_calls(final(calls)@) == seen_calls(old(calls)@) + export_calls(
            context,
            module,
            exports_of(data@, name@),
        ),
{
    let ghost before = seen_calls(calls@);
    assert(data@.take(0) =~= Seq::<SpecExport>::empty());
    assert(before + Seq::<SpecCall>::empty() =~= before);
    let mut i: usize = 0;
    while i < data.len()
        invariant
            i <= data@.len(),
            seen_calls(calls@) == before + export_calls(
                context,
                module,
                exports_of(data@.take(i as int), name@),
            ),
        decreases data@.len() - i,
    {
        proof {
            let next = data@.take(i + 1);
            assert(next.drop_last() =~= data@.take(i as int));
            assert(next.last() == data@[i as int]);
        }
        if data.belongs(i, name) {
            let value: RawValue = data.value(i);
            let ghost so_far = exports_of(data@.take(i as int), name@);
            add_call(calls, Call::DupValue { context, value });
            add_call(calls, Call::SetModuleExport { context, module, name: data.name(i), value });
            proof {
                let entry = (data@[i as int].1, value);
                let grown = so_far.push(entry);
                assert(grown.drop_last() =~= so_far);
                assert(grown.last() == entry);
                assert(seen_calls(calls@) =~= before + export_calls(context, module, grown));
            }
        }
        i = i + 1;
    }
    assert(data@.take(i as int) =~= data@);
}

impl InitTextPending {
    /// Takes the text of the name: a C string at `text` with these bytes, or null. Both the C
    /// string and the atom are given back. The exports of the module of that name are handed to
    /// the module; without a name, or with one that is not text, the callback fails.
    pub fn converted(self, text: Pointer, bytes: &[u8], data: &ModuleExportsData) -> (finished:
        Finished<i32>)
        ensures
            if text == 0 {
                &&& finished.issued() == seq![
                    SpecCall::FreeAtom { context: self.context, atom: self.atom },
                ]
                &&& finished.result == -1
            } else {
                let freed = seq![
                    SpecCall::FreeCString { context: self.context, text },
                    SpecCall::FreeAtom { context: self.context, atom: self.atom },
                ];
                if valid_utf8(bytes@) {
                    &&& finished.issued() == freed + export_calls(
                        self.context,
                        self.module,
                        exports_of(data@, decode_utf8(bytes@)),
                    )
                    &&& finished.result == 0
                } else {
                    &&& finished.issued() == freed
                    &&& finished.result == -1
                }
            },
    {
        let context: Pointer = self.context;
        let atom: u32 = self.atom;
        if text == 0 {
            return Finished { calls: one(Call::FreeAtom { context, atom }), result: -1 };
        }
        let mut calls: Vec<Call> = two(
            Call::FreeCString { context, text },
            Call::FreeAtom { context, atom },
        );
        match text_from_utf8(bytes) {
            Some(name) => {
                proof {
                    encode_utf8_decode_utf8(name@);
                }
                set_exports(&mut calls, context, self.module, name, data);
                Finished { calls, result: 0 }
            },
            None => Finished { calls, result: -1 },
        }
    }
}

} // verus!
