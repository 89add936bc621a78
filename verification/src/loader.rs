//! Module loading: the loader trait, the loaders, and what the engine's two loader callbacks
//! decide.

use vstd::prelude::*;
use vstd::string::*;
use vstd::utf8::{decode_utf8, encode_utf8, encode_utf8_decode_utf8, valid_utf8};

use crate::call::{none, one, two, Asked, Call, Finished, LoaderRef, Next, SpecCall, Step};
use crate::cstring::{make_cstring, zero_free, CString};
use crate::engine::{compile_module_flags, COMPILE_MODULE};
use crate::path::{directory, directory_len, is_relative, law_zero_free, normalize, normalized, DOT};
use crate::registry::NativeModules;
use crate::text::text_from_utf8;
use crate::value::{Pointer, RawValue, TAG_EXCEPTION};

verus! {

/// Why a module could not be loaded.
#[derive(Debug, Clone, Copy, PartialEq, Eq, Structural)]
pub enum LoadErrorKind {
    NotFound,
    Other,
}

/// A module could not be loaded.
#[derive(Debug, PartialEq, Eq)]
pub struct LoadError {
    pub kind: LoadErrorKind,
    /// The error as it is shown.
    pub message: String,
}

/// Where the source of modules comes from.
pub trait JsModuleLoader {
    /// The module that `module_name` stands for in the module `base_module_name`. `None` leaves
    /// it to the default rule.
    fn resolve_module_path(&mut self, base_module_name: &str, module_name: &str) -> (path: Option<
        String,
    >)
        default_ensures
            path is None,
            &*final(self) == &*old(self),
    {
        None
    }

    /// The source of a module.
    fn load(&mut self, module_name: &str) -> (source: Result<String, LoadError>);
}

/// Loads modules from the files below a directory.
#[derive(Debug, PartialEq, Eq)]
pub struct FsJsModuleLoader {
    base: String,
}

impl View for FsJsModuleLoader {
    type V = Seq<char>;

    /// The directory.
    closed spec fn view(&self) -> Seq<char> {
        self.base@
    }
}

impl FsJsModuleLoader {
    /// A loader for the files below `base`.
    pub fn new(base: &str) -> (loader: FsJsModuleLoader)
        ensures
            loader@ == base@,
    {
        FsJsModuleLoader { base: base.to_owned() }
    }

    /// The directory.
    pub fn base(&self) -> (base: &str)
        ensures
            base@ == self@,
    {
        self.base.as_str()
    }
}

/// The loader of a context for which no other was set. It knows no module; native modules, which
/// are looked up before any loader is asked, can be imported all the same.
#[derive(Debug, PartialEq, Eq)]
pub struct NoopModuleLoader;

impl JsModuleLoader for NoopModuleLoader {
    fn load(&mut self, _module_name: &str) -> (source: Result<String, LoadError>)
        ensures
            source matches Err(error) && error.kind == LoadErrorKind::NotFound && error.message@
                == "No module loader configured"@,
    {
        Err(
            LoadError {
                kind: LoadErrorKind::NotFound,
                message: "No module loader configured".to_owned(),
            },
        )
    }
}

/// The name of an imported module is about to be handed to the engine.
#[derive(Debug, PartialEq, Eq)]
pub enum NamePending {
    /// As a copy that the engine makes.
    Copy,
    /// In a block that has been asked for.
    Block(CString),
}

/// The loader has been asked which module is meant.
#[derive(Debug, PartialEq, Eq)]
pub struct ResolvePending {
    pub context: Pointer,
    pub base: CString,
    pub name: CString,
}

/// What the normalize callback waits for.
#[derive(Debug, PartialEq, Eq)]
pub enum NormalizePending {
    Resolve(ResolvePending),
    Name(NamePending),
}

/// The size of the block for the name that `name` stands for in the module `base`.
pub open spec fn block_size(base: Seq<u8>, name: Seq<u8>) -> nat {
    directory(base).len() + name.len() + 2
}

/// The call for the name by the default rule: a name that is not relative is copied as it is, a
/// relative one gets a block.
pub open spec fn default_name_call(context: Pointer, base: Seq<u8>, name: Seq<u8>) -> SpecCall {
    if is_relative(name) {
        SpecCall::Malloc { context, size: block_size(base, name) as usize }
    } else {
        SpecCall::Strdup { context, text: name }
    }
}

/// Whether `pending` holds the name by the default rule.
pub open spec fn default_name_pending(pending: NamePending, base: Seq<u8>, name: Seq<u8>) -> bool {
    match pending {
        NamePending::Copy => !is_relative(name),
        NamePending::Block(text) => is_relative(name) && text@ == normalized(base, name),
    }
}

/// Whether the loader is asked which module is meant: there is one, and both names are text.
pub open spec fn asks_loader(loader: Option<LoaderRef>, base: Seq<u8>, name: Seq<u8>) -> bool {
    loader is Some && valid_utf8(base) && valid_utf8(name)
}

/// Starts to name an imported module by the default rule.
pub fn default_module_normalize_func(context: Pointer, base: &CString, name: &CString) -> (asked:
    Asked<NamePending>)
    requires
        base@.len() + name@.len() + 2 <= usize::MAX,
    ensures
        asked.issued() == seq![default_name_call(context, base@, name@)],
        default_name_pending(asked.pending, base@, name@),
{
    let base_bytes: &[u8] = base.as_bytes();
    let name_bytes: &[u8] = name.as_bytes();
    if name_bytes.len() == 0 || name_bytes[0] != DOT {
        return Asked {
            calls: one(Call::Strdup { context, text: name.duplicate() }),
            pending: NamePending::Copy,
        };
    }
    let size: usize = directory_len(base_bytes) + name_bytes.len() + 2;
    let full: Vec<u8> = normalize(base_bytes, name_bytes);
    proof {
        law_zero_free(base@, name@);
    }
    Asked {
        calls: one(Call::Malloc { context, size }),
        pending: NamePending::Block(CString::from_zero_free(full)),
    }
}

/// Asks the loader which module is meant.
fn resolve_by_loader(loader: Option<LoaderRef>, base: &CString, name: &CString) -> (call: Option<
    Call,
>)
    ensures
        match call {
            Some(call) => {
                &&& asks_loader(loader, base@, name@)
                &&& call@ == (SpecCall::ResolveModule {
                    loader: loader->0,
                    base: decode_utf8(base@),
                    name: decode_utf8(name@),
                })
            },
            None => !asks_loader(loader, base@, name@),
        },
{
    let loader: LoaderRef = match loader {
        Some(loader) => loader,
        None => return None,
    };
    let base_text: &str = match text_from_utf8(base.as_bytes()) {
        Some(text) => text,
        None => return None,
    };
    let name_text: &str = match text_from_utf8(name.as_bytes()) {
        Some(text) => text,
        None => return None,
    };
    proof {
        encode_utf8_decode_utf8(base_text@);
        encode_utf8_decode_utf8(name_text@);
    }
    Some(
        Call::ResolveModule { loader, base: base_text.to_owned(), name: name_text.to_owned() },
    )
}

/// The engine's normalize callback: names the module that `name` stands for in the module `base`.
/// A null pointer for either name gives null. The loader is asked first, where there is one and
/// both names are text; otherwise the default rule holds.
pub fn quickjs_rs_module_normalize_func(
    context: Pointer,
    base: Option<&CString>,
    name: Option<&CString>,
    loader: Option<LoaderRef>,
) -> (step: Step<NormalizePending, Pointer>)
    requires
        base matches Some(b) && name matches Some(n) ==> b@.len() + n@.len() + 2 <= usize::MAX,
    ensures
        match (base, name) {
            (Some(b), Some(n)) => if asks_loader(loader, b@, n@) {
                &&& step.issued() == seq![
                    SpecCall::ResolveModule {
                        loader: loader->0,
                        base: decode_utf8(b@),
                        name: decode_utf8(n@),
                    },
                ]
                &&& step.next matches Next::Await(NormalizePending::Resolve(pending))
                    && pending.context == context && pending.base@ == b@ && pending.name@ == n@
            } else {
                &&& step.issued() == seq![default_name_call(context, b@, n@)]
                &&& step.next matches Next::Await(NormalizePending::Name(pending))
                    && default_name_pending(pending, b@, n@)
            },
            _ => step.issued() == Seq::<SpecCall>::empty() && (step.next matches Next::Return(p)
                && p == 0),
        },
{
    match (base, name) {
        (Some(base), Some(name)) => {
            match resolve_by_loader(loader, base, name) {
                Some(call) => Step {
                    calls: one(call),
                    next: Next::Await(
                        NormalizePending::Resolve(
                            ResolvePending {
                                context,
                                base: base.duplicate(),
                                name: name.duplicate(),
                            },
                        ),
                    ),
                },
                None => {
                    let asked: Asked<NamePending> = default_module_normalize_func(
                        context,
                        base,
                        name,
                    );
                    Step {
                        calls: asked.calls,
                        next: Next::Await(NormalizePending::Name(asked.pending)),
                    }
                },
            }
        },
        _ => Step { calls: none(), next: Next::Return(0) },
    }
}

/// The C string for the name that a loader gave; empty where the name holds a zero byte.
pub open spec fn resolved_text(name: Seq<char>) -> Seq<u8> {
    if zero_free(encode_utf8(name)) {
        encode_utf8(name)
    } else {
        Seq::empty()
    }
}

impl ResolvePending {
    /// Takes the loader's answer. A name goes to the engine as it is; without one the default
    /// rule holds.
    pub fn resolved(self, answer: Option<String>) -> (asked: Asked<NamePending>)
        requires
            self.base@.len() + self.name@.len() + 2 <= usize::MAX,
        ensures
            match answer {
                Some(name) => {
                    &&& asked.issued() == seq![
                        SpecCall::Strdup { context: self.context, text: resolved_text(name@) },
                    ]
                    &&& asked.pending is Copy
                },
                None => {
                    &&& asked.issued() == seq![
                        default_name_call(self.context, self.base@, self.name@),
                    ]
                    &&& default_name_pending(asked.pending, self.base@, self.name@)
                },
            },
    {
        match answer {
            Some(name) => {
                let text: CString = match make_cstring(name.as_str().as_bytes_vec()) {
                    Ok(text) => text,
                    Err(_) => CString::empty(),
                };
                Asked {
                    calls: one(Call::Strdup { context: self.context, text }),
                    pending: NamePending::Copy,
                }
            },
            None => default_module_normalize_func(self.context, &self.base, &self.name),
        }
    }
}

impl NamePending {
    /// Takes the copy, or the block, which is null where the engine is out of memory. The name is
    /// written into the block.
    pub fn obtained(self, pointer: Pointer) -> (finished: Finished<Pointer>)
        ensures
            finished.result == pointer,
            finished.issued() == match self {
                NamePending::Block(text) if pointer != 0 => seq![
                    SpecCall::WriteString { block: pointer, text: text@ },
                ],
                _ => Seq::<SpecCall>::empty(),
            },
    {
        match self {
            NamePending::Copy => Finished { calls: none(), result: pointer },
            NamePending::Block(text) => {
                if pointer == 0 {
                    Finished { calls: none(), result: 0 }
                } else {
                    Finished {
                        calls: one(Call::WriteString { block: pointer, text }),
                        result: pointer,
                    }
                }
            },
        }
    }
}

/// The loader has been asked for the source of a module.
#[derive(Debug, PartialEq, Eq)]
pub struct LoadPending {
    pub context: Pointer,
    pub name: CString,
}

/// The engine has been asked to compile a module.
#[derive(Debug, PartialEq, Eq)]
pub struct CompilePending {
    pub context: Pointer,
}

/// The engine's loader callback: finds the module of that name. A native module is taken before
/// any loader is asked; null stands for no module.
pub fn quickjs_rs_module_loader(
    context: Pointer,
    name: &CString,
    modules: &NativeModules,
    loader: Option<LoaderRef>,
) -> (step: Step<LoadPending, Pointer>)
    ensures
        match step.next {
            Next::Return(module) => {
                &&& step.issued() == Seq::<SpecCall>::empty()
                &&& if valid_utf8(name@) && modules@.contains_key(decode_utf8(name@)) {
                    module == modules@[decode_utf8(name@)]
                } else {
                    module == 0 && (!valid_utf8(name@) || loader is None)
                }
            },
            Next::Await(pending) => {
                &&& valid_utf8(name@)
                &&& !modules@.contains_key(decode_utf8(name@))
                &&& loader is Some
                &&& step.issued() == seq![
                    SpecCall::LoadModule { loader: loader->0, name: decode_utf8(name@) },
                ]
                &&& pending.context == context
                &&& pending.name@ == name@
            },
        },
{
    let text: &str = match text_from_utf8(name.as_bytes()) {
        Some(text) => text,
        None => return Step { calls: none(), next: Next::Return(0) },
    };
    proof {
        encode_utf8_decode_utf8(text@);
    }
    if let Some(module) = modules.get(text) {
        return Step { calls: none(), next: Next::Return(module) };
    }
    match loader {
        Some(loader) => Step {
            calls: one(Call::LoadModule { loader, name: text.to_owned() }),
            next: Next::Await(LoadPending { context, name: name.duplicate() }),
        },
        None => Step { calls: none(), next: Next::Return(0) },
    }
}

impl LoadPending {
    /// Takes the source of the module and has it compiled. Where there is no source, there is no
    /// module.
    pub fn loaded(self, source: Result<String, LoadError>) -> (step: Step<CompilePending, Pointer>)
        requires
            source matches Ok(code) ==> zero_free(encode_utf8(code@)),
        ensures
            match source {
                Ok(code) => {
                    &&& step.issued() == seq![
                        SpecCall::Eval {
                            context: self.context,
                            code: encode_utf8(code@),
                            length: encode_utf8(code@).len() as usize,
                            filename: self.name@,
                            flags: COMPILE_MODULE,
                        },
                    ]
                    &&& step.next matches Next::Await(pending) && pending.context == self.context
                },
                Err(_) => {
                    &&& step.issued() == Seq::<SpecCall>::empty()
                    &&& step.next matches Next::Return(module) && module == 0
                },
            },
    {
        match source {
            Ok(code) => {
                let bytes: Vec<u8> = code.as_str().as_bytes_vec();
                let length: usize = bytes.len();
                Step {
                    calls: one(
                        Call::Eval {
                            context: self.context,
                            code: CString::from_zero_free(bytes),
                            length,
                            filename: self.name,
                            flags: compile_module_flags(),
                        },
                    ),
                    next: Next::Await(CompilePending { context: self.context }),
                }
            },
            Err(_) => Step { calls: none(), next: Next::Return(0) },
        }
    }
}

impl CompilePending {
    /// Takes the compiled module. Its `import.meta` is set, the reference to it is given back, and
    /// its address is the result.
    pub fn compiled(self, function: RawValue) -> (finished: Finished<Pointer>)
        ensures
            if function.tag == TAG_EXCEPTION {
                &&& finished.issued() == Seq::<SpecCall>::empty()
                &&& finished.result == 0
            } else {
                &&& finished.issued() == seq![
                    SpecCall::SetImportMeta {
                        context: self.context,
                        function,
                        use_realpath: false,
                        is_main: false,
                    },
                    SpecCall::FreeValue { context: self.context, value: function },
                ]
                &&& finished.result == function.payload
            },
    {
        if function.is_exception() {
            return Finished { calls: none(), result: 0 };
        }
        Finished {
            calls: two(
                Call::SetImportMeta {
                    context: self.context,
                    function,
                    use_realpath: false,
                    is_main: false,
                },
                Call::FreeValue { context: self.context, value: function },
            ),
            result: function.payload,
        }
    }
}

} // verus!
