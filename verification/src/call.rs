//! What the binding asks of the engine and of the code around it.
//!
//! An operation that needs the engine does not call it. It hands out the calls to make, in order,
//! and either its result or a pending state; the pending state takes what the last of the calls
//! returned and goes on from there.

use vstd::prelude::*;

use crate::cstring::CString;
use crate::value::{JsValueOf, Pointer, RawValue};

verus! {

/// The module loader of a runtime: the one that knows no module, or one of the user's, by the
/// number under which the host keeps it.
#[derive(Debug, Clone, Copy, PartialEq, Eq, Structural)]
pub enum LoaderRef {
    Noop,
    User(u64),
}

/// One call, over the types of the text and of the C strings in it.
#[allow(inconsistent_fields)]
#[derive(Debug, PartialEq, Eq)]
pub enum CallOf<S, B> {
    /// `JS_NewRuntime`; returns the runtime.
    NewRuntime,
    /// `JS_SetMemoryLimit`.
    SetMemoryLimit { runtime: Pointer, limit: usize },
    /// `JS_NewContext`; returns the context.
    NewContext { runtime: Pointer },
    /// `JS_FreeContext`.
    FreeContext { context: Pointer },
    /// `JS_FreeRuntime`.
    FreeRuntime { runtime: Pointer },
    /// `JS_SetModuleLoaderFunc` with the callbacks of this library, for this loader.
    SetModuleLoader { runtime: Pointer, loader: LoaderRef },
    /// `JS_SetHostPromiseRejectionTracker` for the tracker kept under this number.
    SetRejectionTracker { runtime: Pointer, tracker: u64 },
    /// Drops the tracker kept under this number.
    DropTracker { tracker: u64 },
    /// `JS_DupValue`: one more reference to the value.
    DupValue { context: Pointer, value: RawValue },
    /// `JS_FreeValue`: one reference less.
    FreeValue { context: Pointer, value: RawValue },
    /// `JS_FreeValueRT`: one reference less, without a context.
    FreeRuntimeValue { runtime: Pointer, value: RawValue },
    /// Reads the reference count that the engine keeps with the value; returns it.
    ReadRefCount { value: RawValue },
    /// `JS_ToString`; returns a new value.
    ToString { context: Pointer, value: RawValue },
    /// Converts a value of the engine into a host value.
    Decode { context: Pointer, value: RawValue },
    /// Converts a host value into a new value of the engine.
    Encode { context: Pointer, value: JsValueOf<S> },
    /// The text of a value, by way of the engine's own conversion.
    Describe { context: Pointer, value: RawValue },
    /// `JS_GetPropertyStr`; returns a new reference.
    GetProperty { context: Pointer, object: RawValue, name: B },
    /// `JS_SetPropertyStr`, which takes over the reference to `value`; returns a status.
    SetProperty { context: Pointer, object: RawValue, name: B, value: RawValue },
    /// `JS_GetGlobalObject`; returns a new reference.
    GetGlobalObject { context: Pointer },
    /// `JS_GetException`; returns the pending exception.
    GetException { context: Pointer },
    /// `JS_Eval` on `length` bytes of `code`; returns a new value.
    Eval { context: Pointer, code: B, length: usize, filename: B, flags: i32 },
    /// `JS_NewCFunctionData` for the closure kept under this number; returns the function.
    NewFunction { context: Pointer, closure: u64, arguments: i32 },
    /// `JS_Throw`, which takes over the reference to `value`.
    Throw { context: Pointer, value: RawValue },
    /// `JS_NewCModule` with the init callback of this library; returns the module.
    NewModule { context: Pointer, name: B },
    /// `JS_AddModuleExport`.
    AddModuleExport { context: Pointer, module: Pointer, name: B },
    /// `JS_SetModuleExport`, which takes over the reference to `value`.
    SetModuleExport { context: Pointer, module: Pointer, name: B, value: RawValue },
    /// `JS_SetContextOpaque`, so that the init callback finds the export data.
    SetContextOpaque { context: Pointer },
    /// `JS_GetModuleName`; returns an atom.
    GetModuleName { context: Pointer, module: Pointer },
    /// `JS_AtomToCString`; returns a C string.
    AtomToCString { context: Pointer, atom: u32 },
    /// `JS_FreeCString`.
    FreeCString { context: Pointer, text: Pointer },
    /// `JS_FreeAtom`.
    FreeAtom { context: Pointer, atom: u32 },
    /// `JS_GetModuleNamespace`; returns a new reference.
    GetModuleNamespace { context: Pointer, module: Pointer },
    /// `JS_NewObject`; returns the object.
    NewObject { context: Pointer },
    /// `JS_ExecutePendingJob`; returns a status.
    ExecutePendingJob { runtime: Pointer },
    /// Asks whether an object is a promise, and in what state, without a read of its properties.
    PromiseState { context: Pointer, promise: RawValue },
    /// Asks a settled promise for what it holds; returns a new reference.
    PromiseResult { context: Pointer, promise: RawValue },
    /// `js_module_set_import_meta`.
    SetImportMeta { context: Pointer, function: RawValue, use_realpath: bool, is_main: bool },
    /// `js_strdup`; returns the copy.
    Strdup { context: Pointer, text: B },
    /// `js_malloc`; returns the block.
    Malloc { context: Pointer, size: usize },
    /// Writes the C string and its terminator to the start of a block.
    WriteString { block: Pointer, text: B },
    /// Asks a module loader for the source of a module.
    LoadModule { loader: LoaderRef, name: S },
    /// Asks a module loader which module `name` stands for in the module `base`.
    ResolveModule { loader: LoaderRef, base: S, name: S },
}

/// A call to make.
pub type Call = CallOf<String, CString>;

/// A call in contracts.
pub type SpecCall = CallOf<Seq<char>, Seq<u8>>;

impl View for CallOf<String, CString> {
    type V = SpecCall;

    open spec fn view(&self) -> SpecCall {
        match *self {
            CallOf::NewRuntime => CallOf::NewRuntime,
            CallOf::SetMemoryLimit { runtime, limit } => CallOf::SetMemoryLimit { runtime, limit },
            CallOf::NewContext { runtime } => CallOf::NewContext { runtime },
            CallOf::FreeContext { context } => CallOf::FreeContext { context },
            CallOf::FreeRuntime { runtime } => CallOf::FreeRuntime { runtime },
            CallOf::SetModuleLoader { runtime, loader } => CallOf::SetModuleLoader {
                runtime,
                loader,
            },
            CallOf::SetRejectionTracker { runtime, tracker } => CallOf::SetRejectionTracker {
                runtime,
                tracker,
            },
            CallOf::DropTracker { tracker } => CallOf::DropTracker { tracker },
            CallOf::DupValue { context, value } => CallOf::DupValue { context, value },
            CallOf::FreeValue { context, value } => CallOf::FreeValue { context, value },
            CallOf::FreeRuntimeValue { runtime, value } => CallOf::FreeRuntimeValue {
                runtime,
                value,
            },
            CallOf::ReadRefCount { value } => CallOf::ReadRefCount { value },
            CallOf::ToString { context, value } => CallOf::ToString { context, value },
            CallOf::Decode { context, value } => CallOf::Decode { context, value },
            CallOf::Encode { context, value } => CallOf::Encode { context, value: value@ },
            CallOf::Describe { context, value } => CallOf::Describe { context, value },
            CallOf::GetProperty { context, object, name } => CallOf::GetProperty {
                context,
                object,
                name: name@,
            },
            CallOf::SetProperty { context, object, name, value } => CallOf::SetProperty {
                context,
                object,
                name: name@,
                value,
            },
            CallOf::GetGlobalObject { context } => CallOf::GetGlobalObject { context },
            CallOf::GetException { context } => CallOf::GetException { context },
            CallOf::Eval { context, code, length, filename, flags } => CallOf::Eval {
                context,
                code: code@,
                length,
                filename: filename@,
                flags,
            },
            CallOf::NewFunction { context, closure, arguments } => CallOf::NewFunction {
                context,
                closure,
                arguments,
            },
            CallOf::Throw { context, value } => CallOf::Throw { context, value },
            CallOf::NewModule { context, name } => CallOf::NewModule { context, name: name@ },
            CallOf::AddModuleExport { context, module, name } => CallOf::AddModuleExport {
                context,
                module,
                name: name@,
            },
            CallOf::SetModuleExport { context, module, name, value } => CallOf::SetModuleExport {
                context,
                module,
                name: name@,
                value,
            },
            CallOf::SetContextOpaque { context } => CallOf::SetContextOpaque { context },
            CallOf::GetModuleName { context, module } => CallOf::GetModuleName { context, module },
            CallOf::AtomToCString { context, atom } => CallOf::AtomToCString { context, atom },
            CallOf::FreeCString { context, text } => CallOf::FreeCString { context, text },
            CallOf::FreeAtom { context, atom } => CallOf::FreeAtom { context, atom },
            CallOf::GetModuleNamespace { context, module } => CallOf::GetModuleNamespace {
                context,
                module,
            },
            CallOf::NewObject { context } => CallOf::NewObject { context },
            CallOf::ExecutePendingJob { runtime } => CallOf::ExecutePendingJob { runtime },
            CallOf::PromiseState { context, promise } => CallOf::PromiseState { context, promise },
            CallOf::PromiseResult { context, promise } => CallOf::PromiseResult {
                context,
                promise,
            },
            CallOf::SetImportMeta { context, function, use_realpath, is_main } =>
                CallOf::SetImportMeta { context, function, use_realpath, is_main },
            CallOf::Strdup { context, text } => CallOf::Strdup { context, text: text@ },
            CallOf::Malloc { context, size } => CallOf::Malloc { context, size },
            CallOf::WriteString { block, text } => CallOf::WriteString { block, text: text@ },
            CallOf::LoadModule { loader, name } => CallOf::LoadModule { loader, name: name@ },
            CallOf::ResolveModule { loader, base, name } => CallOf::ResolveModule {
                loader,
                base: base@,
                name: name@,
            },
        }
    }
}

/// The calls of a list, each seen through its view.
pub open spec fn seen_calls(calls: Seq<Call>) -> Seq<SpecCall> {
    calls.map_values(|call: Call| call@)
}

/// Whether an operation waits for what its last call returned, or is done.
#[derive(Debug, PartialEq, Eq)]
pub enum Next<P, T> {
    Await(P),
    Return(T),
}

/// The calls to make now, and how the operation goes on.
#[derive(Debug, PartialEq, Eq)]
pub struct Step<P, T> {
    pub calls: Vec<Call>,
    pub next: Next<P, T>,
}

impl<P, T> Step<P, T> {
    /// The calls to make, in order.
    pub open spec fn issued(&self) -> Seq<SpecCall> {
        seen_calls(self.calls@)
    }
}

/// The calls to make now, and the operation that waits for what the last of them returns.
#[derive(Debug, PartialEq, Eq)]
pub struct Asked<P> {
    pub calls: Vec<Call>,
    pub pending: P,
}

impl<P> Asked<P> {
    /// The calls to make, in order.
    pub open spec fn issued(&self) -> Seq<SpecCall> {
        seen_calls(self.calls@)
    }
}

/// The last calls of an operation, and its result.
#[derive(Debug, PartialEq, Eq)]
pub struct Finished<T> {
    pub calls: Vec<Call>,
    pub result: T,
}

impl<T> Finished<T> {
    /// The calls to make, in order.
    pub open spec fn issued(&self) -> Seq<SpecCall> {
        seen_calls(self.calls@)
    }
}

/// A list of one call.
pub(crate) fn one(call: Call) -> (calls: Vec<Call>)
    ensures
        seen_calls(calls@) == seq![call@],
{
    let mut calls: Vec<Call> = Vec::new();
    calls.push(call);
    assert(seen_calls(calls@) =~= seq![call@]);
    calls
}

/// A list of two calls.
pub(crate) fn two(first: Call, second: Call) -> (calls: Vec<Call>)
    ensures
        seen_calls(calls@) == seq![first@, second@],
{
    let mut calls: Vec<Call> = Vec::new();
    calls.push(first);
    calls.push(second);
    assert(seen_calls(calls@) =~= seq![first@, second@]);
    calls
}

/// A list without a call.
pub(crate) fn none() -> (calls: Vec<Call>)
    ensures
        seen_calls(calls@) == Seq::<SpecCall>::empty(),
{
    let calls: Vec<Call> = Vec::new();
    assert(seen_calls(calls@) =~= Seq::<SpecCall>::empty());
    calls
}

/// Adds a call to the end of a list.
pub(crate) fn add_call(calls: &mut Vec<Call>, call: Call)
    ensures
        seen_calls(final(calls)@) == seen_calls(old(calls)@).push(call@),
{
    calls.push(call);
    assert(seen_calls(calls@) =~= seen_calls(old(calls)@).push(call@));
}

} // verus!
