//! The context: what the binding keeps for one engine context, and the operations on it.

use vstd::prelude::*;
use vstd::string::*;
use vstd::utf8::encode_utf8;

use crate::call::{
    add_call, none, one, seen_calls, two, Asked, Call, Finished, LoaderRef, Next, SpecCall, Step,
};
use crate::cstring::{make_cstring, zero_free, CString};
use crate::engine::{eval_type_module, EVAL_TYPE_MODULE};
use crate::error::{
    seen, ContextError, ExecutionError, SpecExecutionError, SpecValueError, ValueError,
};
use crate::exception::{fail, seen_found, ExceptionPending, FailurePending, Fallback};
use crate::loader::LoadError;
use crate::module_builder::{free_calls, NativeModuleBuilder, SpecExportEntry};
use crate::object_ref::{name_error, set_outcome, set_property_call, OwnedObjectRef, SetPending};
use crate::registry::{ModuleExportsData, NativeModules, SpecExport};
use crate::resolve::{resolve, resolve_step, Awaited, Resolution, ResolutionPending};
use crate::value::{JsValue, Pointer, RawValue, TAG_EXCEPTION, TAG_OBJECT};
use crate::value_ref::OwnedValueRef;

verus! {

/// One engine context and what belongs to it.
#[derive(Debug, PartialEq, Eq)]
pub struct ContextWrapper {
    pub runtime: Pointer,
    pub context: Pointer,
    /// The closures behind the functions made for this context, by the numbers under which the
    /// host keeps them. They are only ever added, so that each stays alive with the context.
    pub callbacks: Vec<u64>,
    pub module_loader: Option<LoaderRef>,
    /// The host's tracker of rejected promises, by its number.
    pub rejection_tracker: Option<u64>,
    /// The native modules, for imports by name. The engine frees a module with its context, so
    /// those that were built before a reset belong to the freed context and must not be imported.
    pub native_modules: NativeModules,
    /// What the init callbacks of the native modules export; there once a module was built. It is
    /// made known to the context in which the first module is built, and not to one that a reset
    /// brings.
    pub module_exports: Option<ModuleExportsData>,
}

/// The runtime has been asked for.
#[derive(Debug, PartialEq, Eq)]
pub struct RuntimePending {
    pub memory_limit: Option<usize>,
}

/// The context has been asked for.
#[derive(Debug, PartialEq, Eq)]
pub struct ContextPending {
    pub runtime: Pointer,
}

/// The context of the wrapper has been freed, and another asked for.
#[derive(Debug, PartialEq, Eq)]
pub struct ResetPending {
    pub wrapper: ContextWrapper,
}

/// A value has been asked to be converted.
#[derive(Debug, PartialEq, Eq)]
pub struct SerializePending {
    pub context: Pointer,
}

/// The global object has been asked for.
#[derive(Debug, PartialEq, Eq)]
pub struct GlobalPending {
    pub context: Pointer,
}

/// Code is being evaluated.
#[derive(Debug, PartialEq, Eq)]
pub struct EvalPending {
    pub runtime: Pointer,
    pub context: Pointer,
}

/// A function is to be called with these arguments.
#[derive(Debug, PartialEq, Eq)]
pub struct FunctionCall {
    pub runtime: Pointer,
    pub context: Pointer,
    pub function: RawValue,
    pub args: Vec<RawValue>,
}

/// A function of the host has been made for the engine.
#[derive(Debug, PartialEq, Eq)]
pub struct CallbackPending {
    pub context: Pointer,
    pub name: String,
}

/// The global object has been asked for, to give it a function that the caller gets too.
#[derive(Debug, PartialEq, Eq)]
pub struct CallbackGlobalPending {
    pub context: Pointer,
    pub name: String,
    pub function: RawValue,
}

/// The function that the caller gets has been set on the global object.
#[derive(Debug, PartialEq, Eq)]
pub struct CallbackSetPending {
    pub context: Pointer,
    pub global: RawValue,
    pub function: RawValue,
}

/// The function for a global has been asked for.
#[derive(Debug, PartialEq, Eq)]
pub struct AddCallbackPending {
    pub context: Pointer,
    pub name: String,
}

/// The global object has been asked for, to give it a function.
#[derive(Debug, PartialEq, Eq)]
pub struct AddGlobalPending {
    pub context: Pointer,
    pub name: String,
    pub function: RawValue,
}

/// The function has been set on the global object.
#[derive(Debug, PartialEq, Eq)]
pub struct AddSetPending {
    pub context: Pointer,
    pub global: RawValue,
}

/// A job is being run.
#[derive(Debug, PartialEq, Eq)]
pub struct JobPending {
    pub context: Pointer,
}

/// A module is being run: a native one, whose namespace has been asked for, or one whose source
/// has been asked for.
#[derive(Debug, PartialEq, Eq)]
pub enum ExecutePending {
    Namespace(ModuleNamespacePending),
    Source(SourcePending),
}

/// The namespace of a native module has been asked for.
#[derive(Debug, PartialEq, Eq)]
pub struct ModuleNamespacePending {
    pub context: Pointer,
}

/// The source of a module has been asked for.
#[derive(Debug, PartialEq, Eq)]
pub struct SourcePending {
    pub runtime: Pointer,
    pub context: Pointer,
    pub name: String,
}

/// A module is being evaluated.
#[derive(Debug, PartialEq, Eq)]
pub struct ModulePending {
    pub runtime: Pointer,
    pub context: Pointer,
}

/// The values of all recorded exports.
pub open spec fn recorded_values(data: Seq<SpecExport>) -> Seq<RawValue> {
    data.map_values(|e: SpecExport| e.2)
}

/// One `FreeRuntimeValue` for each value.
pub open spec fn runtime_free_calls(runtime: Pointer, values: Seq<RawValue>) -> Seq<SpecCall> {
    values.map_values(|value: RawValue| SpecCall::FreeRuntimeValue { runtime, value })
}

/// The name of the global that takes console messages.
pub open spec fn console_global() -> Seq<char> {
    "__console_write"@
}

/// The name of the global function that takes console messages.
pub fn console_name() -> (name: &'static str)
    ensures
        name@ == console_global(),
{
    "__console_write"
}

/// The call for a function that is backed by a host closure.
pub open spec fn new_function_call(context: Pointer, arguments: usize, closure: u64) -> SpecCall {
    SpecCall::NewFunction { context, closure, arguments: arguments as i32 }
}

/// The calls for the evaluation of code.
pub open spec fn eval_calls(
    context: Pointer,
    code: Seq<char>,
    eval_type: u32,
    filename: Seq<char>,
) -> Seq<SpecCall> {
    seq![
        SpecCall::Eval {
            context,
            code: encode_utf8(code),
            length: encode_utf8(code).len() as usize,
            filename: encode_utf8(filename),
            flags: eval_type as i32,
        },
    ]
}

/// The call that evaluates code, or the error for a zero byte in the file name or in the code.
fn eval_call(context: Pointer, code: &str, eval_type: u32, filename: &str) -> (call: Result<
    Call,
    ExecutionError,
>)
    ensures
        match call {
            Ok(call) => {
                &&& zero_free(encode_utf8(filename@))
                &&& zero_free(encode_utf8(code@))
                &&& seq![call@] == eval_calls(context, code@, eval_type, filename@)
            },
            Err(error) => error@ == eval_name_error(code@, filename@) && !(zero_free(
                encode_utf8(filename@),
            ) && zero_free(encode_utf8(code@))),
        },
{
    let filename: CString = match make_cstring(filename.as_bytes_vec()) {
        Ok(text) => text,
        Err(error) => return Err(ExecutionError::Conversion(error)),
    };
    let bytes: Vec<u8> = code.as_bytes_vec();
    let length: usize = bytes.len();
    let code: CString = match make_cstring(bytes) {
        Ok(text) => text,
        Err(error) => return Err(ExecutionError::Conversion(error)),
    };
    Ok(
        Call::Eval {
            context,
            code,
            length,
            filename,
            flags: #[verifier::truncate] (eval_type as i32),
        },
    )
}

/// The error for code, or a file name, that holds a zero byte; the file name is looked at first.
pub open spec fn eval_name_error(code: Seq<char>, filename: Seq<char>) -> SpecExecutionError {
    if zero_free(encode_utf8(filename)) {
        name_error(code)
    } else {
        name_error(filename)
    }
}

impl ContextWrapper {
    /// What the export data holds; nothing before the first module was built.
    pub open spec fn export_data(&self) -> Seq<SpecExport> {
        match self.module_exports {
            Some(data) => data@,
            None => Seq::empty(),
        }
    }

    /// The calls that take down all that belongs to the context: the tracker is dropped, the
    /// references to the exports are given back, and the context and the runtime are freed.
    pub open spec fn teardown_calls(&self) -> Seq<SpecCall> {
        self.tracker_calls() + free_calls(
            self.context,
            recorded_values(self.export_data()),
        ) + seq![
            SpecCall::FreeContext { context: self.context },
            SpecCall::FreeRuntime { runtime: self.runtime },
        ]
    }

    /// The call that drops the tracker, where there is one.
    pub open spec fn tracker_calls(&self) -> Seq<SpecCall> {
        match self.rejection_tracker {
            Some(tracker) => seq![SpecCall::DropTracker { tracker }],
            None => Seq::<SpecCall>::empty(),
        }
    }

    /// Starts to set up a context, in a runtime of its own.
    pub fn new(memory_limit: Option<usize>) -> (asked: Asked<RuntimePending>)
        ensures
            asked.issued() == seq![SpecCall::NewRuntime],
            asked.pending.memory_limit == memory_limit,
    {
        Asked { calls: one(Call::NewRuntime), pending: RuntimePending { memory_limit } }
    }

    /// The calls that take down what is left once the context is freed: the tracker is dropped, the
    /// references to the exports are given back by way of the runtime, and the runtime is freed.
    pub open spec fn leftover_calls(&self) -> Seq<SpecCall> {
        self.tracker_calls() + runtime_free_calls(
            self.runtime,
            recorded_values(self.export_data()),
        ) + seq![SpecCall::FreeRuntime { runtime: self.runtime }]
    }

    fn drop_tracker(&self) -> (calls: Vec<Call>)
        ensures
            seen_calls(calls@) == self.tracker_calls(),
    {
        match self.rejection_tracker {
            Some(tracker) => one(Call::DropTracker { tracker }),
            None => none(),
        }
    }

    /// Takes down all that belongs to the context.
    pub fn teardown(self) -> (calls: Vec<Call>)
        ensures
            seen_calls(calls@) == self.teardown_calls(),
    {
        let context: Pointer = self.context;
        let mut calls: Vec<Call> = self.drop_tracker();
        let ghost start = seen_calls(calls@);
        let ghost frees = free_calls(context, recorded_values(self.export_data()));
        assert(start + frees.take(0) =~= start);
        if let Some(data) = &self.module_exports {
            let mut i: usize = 0;
            while i < data.len()
                invariant
                    i <= data@.len(),
                    frees == free_calls(context, recorded_values(data@)),
                    seen_calls(calls@) == start + frees.take(i as int),
                decreases data@.len() - i,
            {
                add_call(&mut calls, Call::FreeValue { context, value: data.value(i) });
                assert(start + frees.take(i + 1) =~= (start + frees.take(i as int)).push(
                    frees[i as int],
                ));
                i = i + 1;
            }
            assert(frees.take(i as int) =~= frees);
        } else {
            assert(frees =~= Seq::<SpecCall>::empty());
            assert(start + frees =~= start);
        }
        add_call(&mut calls, Call::FreeContext { context });
        add_call(&mut calls, Call::FreeRuntime { runtime: self.runtime });
        assert(seen_calls(calls@) =~= self.teardown_calls());
        calls
    }

    /// Takes down what is left once the context is freed.
    fn take_down_leftovers(self) -> (calls: Vec<Call>)
        ensures
            seen_calls(calls@) == self.leftover_calls(),
    {
        let runtime: Pointer = self.runtime;
        let mut calls: Vec<Call> = self.drop_tracker();
        let ghost start = seen_calls(calls@);
        let ghost frees = runtime_free_calls(runtime, recorded_values(self.export_data()));
        assert(start + frees.take(0) =~= start);
        if let Some(data) = &self.module_exports {
            let mut i: usize = 0;
            while i < data.len()
                invariant
                    i <= data@.len(),
                    frees == runtime_free_calls(runtime, recorded_values(data@)),
                    seen_calls(calls@) == start + frees.take(i as int),
                decreases data@.len() - i,
            {
                add_call(&mut calls, Call::FreeRuntimeValue { runtime, value: data.value(i) });
                assert(start + frees.take(i + 1) =~= (start + frees.take(i as int)).push(
                    frees[i as int],
                ));
                i = i + 1;
            }
            assert(frees.take(i as int) =~= frees);
        } else {
            assert(frees =~= Seq::<SpecCall>::empty());
            assert(start + frees =~= start);
        }
        add_call(&mut calls, Call::FreeRuntime { runtime });
        assert(seen_calls(calls@) =~= self.leftover_calls());
        calls
    }

    /// Sets the tracker of rejected promises, in place of the one before.
    pub fn set_host_promise_rejection_tracker(&mut self, tracker: u64) -> (call: Call)
        ensures
            call@ == (SpecCall::SetRejectionTracker { runtime: old(self).runtime, tracker }),
            *final(self) == (ContextWrapper { rejection_tracker: Some(tracker), ..*old(self) }),
    {
        self.rejection_tracker = Some(tracker);
        Call::SetRejectionTracker { runtime: self.runtime, tracker }
    }

    /// Sets the module loader, in place of the one before.
    pub fn set_module_loader(&mut self, loader: LoaderRef) -> (call: Call)
        ensures
            call@ == (SpecCall::SetModuleLoader { runtime: old(self).runtime, loader }),
            *final(self) == (ContextWrapper { module_loader: Some(loader), ..*old(self) }),
    {
        self.module_loader = Some(loader);
        Call::SetModuleLoader { runtime: self.runtime, loader }
    }

    /// Starts to install the console: the global function through which it gets its messages.
    pub fn set_console(&mut self, arguments: usize, closure: u64) -> (asked: Asked<
        AddCallbackPending,
    >)
        ensures
            asked.issued() == seq![new_function_call(old(self).context, arguments, closure)],
            asked.pending.context == old(self).context,
            asked.pending.name@ == console_global(),
            final(self).callbacks@ == old(self).callbacks@.push(closure),
            *final(self) == (ContextWrapper { callbacks: final(self).callbacks, ..*old(self) }),
    {
        self.add_callback(console_name(), arguments, closure)
    }

    /// Starts to replace the context by a new one in the same runtime: frees the old one, lets the
    /// functions made for it go, and asks for the new one.
    pub fn reset(self) -> (asked: Asked<ResetPending>)
        ensures
            asked.issued() == seq![
                SpecCall::FreeContext { context: self.context },
                SpecCall::NewContext { runtime: self.runtime },
            ],
            asked.pending.wrapper.callbacks@ == Seq::<u64>::empty(),
            asked.pending.wrapper == (ContextWrapper {
                callbacks: asked.pending.wrapper.callbacks,
                ..self
            }),
    {
        let mut wrapper: ContextWrapper = self;
        wrapper.callbacks = Vec::new();
        Asked {
            calls: two(
                Call::FreeContext { context: wrapper.context },
                Call::NewContext { runtime: wrapper.runtime },
            ),
            pending: ResetPending { wrapper },
        }
    }

    /// Starts to convert a host value.
    pub fn serialize_value(&self, value: JsValue) -> (asked: Asked<SerializePending>)
        ensures
            asked.issued() == seq![SpecCall::Encode { context: self.context, value: value@ }],
            asked.pending.context == self.context,
    {
        Asked {
            calls: one(Call::Encode { context: self.context, value }),
            pending: SerializePending { context: self.context },
        }
    }

    /// Asks for a value as a host value; what comes back is the result.
    pub fn to_value(&self, value: &RawValue) -> (call: Call)
        ensures
            call@ == (SpecCall::Decode { context: self.context, value: *value }),
    {
        Call::Decode { context: self.context, value: *value }
    }

    /// Starts to get the global object.
    pub fn global(&self) -> (asked: Asked<GlobalPending>)
        ensures
            asked.issued() == seq![SpecCall::GetGlobalObject { context: self.context }],
            asked.pending.context == self.context,
    {
        Asked {
            calls: one(Call::GetGlobalObject { context: self.context }),
            pending: GlobalPending { context: self.context },
        }
    }

    /// Starts to get the pending exception, as an error.
    pub fn get_exception(&self) -> (asked: Asked<ExceptionPending>)
        ensures
            asked.issued() == seq![SpecCall::GetException { context: self.context }],
            asked.pending == (ExceptionPending { context: self.context }),
    {
        Asked {
            calls: one(Call::GetException { context: self.context }),
            pending: ExceptionPending { context: self.context },
        }
    }

    /// Takes what `get_exception` found: an error where there was one.
    pub fn ensure_no_excpetion(found: Option<ExecutionError>) -> (result: Result<
        (),
        ExecutionError,
    >)
        ensures
            seen(result) == match seen_found(found) {
                Some(error) => Err(error),
                None => Ok(()),
            },
    {
        match found {
            Some(error) => Err(error),
            None => Ok(()),
        }
    }

    /// A value of this context, to look for its final value.
    pub open spec fn awaited(&self, value: RawValue) -> Awaited {
        Awaited { runtime: self.runtime, context: self.context, value }
    }

    /// Starts to turn a value that the engine returned into a result: an exception into an error,
    /// a promise into what it settles on, which jobs are run for, any other value into itself.
    pub fn resolve_value(&self, value: RawValue) -> (step: Resolution)
        ensures
            resolve_step(step, self.awaited(value)),
    {
        resolve(Awaited { runtime: self.runtime, context: self.context, value })
    }

    /// Starts to evaluate code.
    pub fn eval(&self, code: &str, eval_type: u32, filename: &str) -> (step: Step<
        EvalPending,
        Result<OwnedValueRef, ExecutionError>,
    >)
        ensures
            if zero_free(encode_utf8(filename@)) && zero_free(encode_utf8(code@)) {
                &&& step.issued() == eval_calls(self.context, code@, eval_type, filename@)
                &&& step.next == Next::<_, Result<OwnedValueRef, ExecutionError>>::Await(
                    EvalPending { runtime: self.runtime, context: self.context },
                )
            } else {
                &&& step.issued() == Seq::<SpecCall>::empty()
                &&& step.next matches Next::Return(result) && seen(result) == Err::<
                    OwnedValueRef,
                    _,
                >(eval_name_error(code@, filename@))
            },
    {
        match eval_call(self.context, code, eval_type, filename) {
            Ok(call) => Step {
                calls: one(call),
                next: Next::Await(
                    EvalPending { runtime: self.runtime, context: self.context },
                ),
            },
            Err(error) => Step { calls: none(), next: Next::Return(Err(error)) },
        }
    }

    /// Starts to call a function. The references to the function and to the arguments stay with
    /// the caller, who gives them back when the call is over.
    pub fn call_function(&self, function: RawValue, args: Vec<RawValue>) -> (call: FunctionCall)
        ensures
            call == (FunctionCall {
                runtime: self.runtime,
                context: self.context,
                function,
                args,
            }),
    {
        FunctionCall { runtime: self.runtime, context: self.context, function, args }
    }

    /// Asks for a function of the engine that is backed by a host closure, which is kept alive
    /// with the context.
    fn new_function(&mut self, arguments: usize, closure: u64) -> (calls: Vec<Call>)
        ensures
            seen_calls(calls@) == seq![
                new_function_call(old(self).context, arguments, closure),
            ],
            final(self).callbacks@ == old(self).callbacks@.push(closure),
            *final(self) == (ContextWrapper { callbacks: final(self).callbacks, ..*old(self) }),
    {
        self.callbacks.push(closure);
        one(
            Call::NewFunction {
                context: self.context,
                closure,
                arguments: #[verifier::truncate] (arguments as i32),
            },
        )
    }

    /// Starts to add a global function that is backed by a host closure, and that the caller gets
    /// too. The closure is kept alive with the context.
    pub fn create_callback(&mut self, name: &str, arguments: usize, closure: u64) -> (asked: Asked<
        CallbackPending,
    >)
        ensures
            asked.issued() == seq![new_function_call(old(self).context, arguments, closure)],
            asked.pending.context == old(self).context,
            asked.pending.name@ == name@,
            final(self).callbacks@ == old(self).callbacks@.push(closure),
            *final(self) == (ContextWrapper { callbacks: final(self).callbacks, ..*old(self) }),
    {
        let calls: Vec<Call> = self.new_function(arguments, closure);
        Asked { calls, pending: CallbackPending { context: self.context, name: name.to_owned() } }
    }

    /// Starts to add a global function that is backed by a host closure. The closure is kept alive
    /// with the context.
    pub fn add_callback(&mut self, name: &str, arguments: usize, closure: u64) -> (asked: Asked<
        AddCallbackPending,
    >)
        ensures
            asked.issued() == seq![new_function_call(old(self).context, arguments, closure)],
            asked.pending.context == old(self).context,
            asked.pending.name@ == name@,
            final(self).callbacks@ == old(self).callbacks@.push(closure),
            *final(self) == (ContextWrapper { callbacks: final(self).callbacks, ..*old(self) }),
    {
        let calls: Vec<Call> = self.new_function(arguments, closure);
        Asked {
            calls,
            pending: AddCallbackPending { context: self.context, name: name.to_owned() },
        }
    }

    /// The native modules, as the loader callback looks them up.
    pub fn native_modules_ptr(&self) -> (modules: &NativeModules)
        ensures
            *modules == self.native_modules,
    {
        &self.native_modules
    }

    /// Starts a native module without exports.
    pub fn create_module(&self, module_name: &str) -> (builder: NativeModuleBuilder)
        ensures
            builder.module_name@ == module_name@,
            builder.entries() == Seq::<SpecExportEntry>::empty(),
    {
        let builder: NativeModuleBuilder = NativeModuleBuilder {
            module_name: module_name.to_owned(),
            exports: Vec::new(),
        };
        assert(builder.entries() =~= Seq::<SpecExportEntry>::empty());
        builder
    }

    /// Starts to run one job that the engine has waiting.
    pub fn execute_pending_job(&self) -> (asked: Asked<JobPending>)
        ensures
            asked.issued() == seq![SpecCall::ExecutePendingJob { runtime: self.runtime }],
            asked.pending.context == self.context,
    {
        Asked {
            calls: one(Call::ExecutePendingJob { runtime: self.runtime }),
            pending: JobPending { context: self.context },
        }
    }

    /// Starts to run a module: a native one of that name, or else the one that the loader has.
    pub fn execute_module(&self, module_name: &str) -> (step: Step<
        ExecutePending,
        Result<(), ExecutionError>,
    >)
        ensures
            if self.native_modules@.contains_key(module_name@) {
                &&& step.issued() == seq![
                    SpecCall::GetModuleNamespace {
                        context: self.context,
                        module: self.native_modules@[module_name@],
                    },
                ]
                &&& step.next == Next::<_, Result<(), ExecutionError>>::Await(
                    ExecutePending::Namespace(ModuleNamespacePending { context: self.context }),
                )
            } else {
                match self.module_loader {
                    Some(loader) => {
                        &&& step.issued() == seq![
                            SpecCall::LoadModule { loader, name: module_name@ },
                        ]
                        &&& step.next matches Next::Await(ExecutePending::Source(pending))
                            && pending.runtime == self.runtime && pending.context == self.context
                            && pending.name@ == module_name@
                    },
                    None => {
                        &&& step.issued() == Seq::<SpecCall>::empty()
                        &&& step.next matches Next::Return(result) && seen(result) == Err::<(), _>(
                            SpecExecutionError::Internal("Module loader is not set"@),
                        )
                    },
                }
            },
    {
        let context: Pointer = self.context;
        if let Some(module) = self.native_modules.get(module_name) {
            return Step {
                calls: one(Call::GetModuleNamespace { context, module }),
                next: Next::Await(ExecutePending::Namespace(ModuleNamespacePending { context })),
            };
        }
        match self.module_loader {
            Some(loader) => Step {
                calls: one(Call::LoadModule { loader, name: module_name.to_owned() }),
                next: Next::Await(
                    ExecutePending::Source(
                        SourcePending {
                            runtime: self.runtime,
                            context,
                            name: module_name.to_owned(),
                        },
                    ),
                ),
            },
            None => Step {
                calls: none(),
                next: Next::Return(
                    Err(ExecutionError::Internal("Module loader is not set".to_owned())),
                ),
            },
        }
    }
}

impl RuntimePending {
    /// Takes the runtime, or null. The memory limit, if any, is set before the context is asked
    /// for.
    pub fn created(self, runtime: Pointer) -> (step: Step<
        ContextPending,
        Result<ContextWrapper, ContextError>,
    >)
        ensures
            if runtime == 0 {
                &&& step.issued() == Seq::<SpecCall>::empty()
                &&& step.next == Next::<ContextPending, _>::Return(
                    Err::<ContextWrapper, _>(ContextError::RuntimeCreationFailed),
                )
            } else {
                &&& step.issued() == match self.memory_limit {
                    Some(limit) => seq![
                        SpecCall::SetMemoryLimit { runtime, limit },
                        SpecCall::NewContext { runtime },
                    ],
                    None => seq![SpecCall::NewContext { runtime }],
                }
                &&& step.next == Next::<_, Result<ContextWrapper, ContextError>>::Await(
                    ContextPending { runtime },
                )
            },
    {
        if runtime == 0 {
            return Step {
                calls: none(),
                next: Next::Return(Err(ContextError::RuntimeCreationFailed)),
            };
        }
        let calls: Vec<Call> = match self.memory_limit {
            Some(limit) => two(
                Call::SetMemoryLimit { runtime, limit },
                Call::NewContext { runtime },
            ),
            None => one(Call::NewContext { runtime }),
        };
        Step { calls, next: Next::Await(ContextPending { runtime }) }
    }
}

/// A context on which nothing has been done yet: no functions, no modules, no tracker, and the
/// loader that knows no module.
pub open spec fn is_fresh(wrapper: ContextWrapper, runtime: Pointer, context: Pointer) -> bool {
    &&& wrapper.runtime == runtime
    &&& wrapper.context == context
    &&& wrapper.callbacks@ == Seq::<u64>::empty()
    &&& wrapper.module_loader == Some(LoaderRef::Noop)
    &&& wrapper.rejection_tracker is None
    &&& wrapper.native_modules@ == Map::<Seq<char>, Pointer>::empty()
    &&& wrapper.module_exports is None
}

impl ContextPending {
    /// Takes the context, or null, with which the runtime is freed. The loader that knows no
    /// module is set, so that native modules can be imported.
    pub fn created(self, context: Pointer) -> (finished: Finished<
        Result<ContextWrapper, ContextError>,
    >)
        ensures
            if context == 0 {
                &&& finished.issued() == seq![SpecCall::FreeRuntime { runtime: self.runtime }]
                &&& finished.result == Err::<ContextWrapper, _>(
                    ContextError::ContextCreationFailed,
                )
            } else {
                &&& finished.issued() == seq![
                    SpecCall::SetModuleLoader { runtime: self.runtime, loader: LoaderRef::Noop },
                ]
                &&& finished.result matches Ok(wrapper) && is_fresh(
                    wrapper,
                    self.runtime,
                    context,
                )
            },
    {
        if context == 0 {
            return Finished {
                calls: one(Call::FreeRuntime { runtime: self.runtime }),
                result: Err(ContextError::ContextCreationFailed),
            };
        }
        let mut wrapper: ContextWrapper = ContextWrapper {
            runtime: self.runtime,
            context,
            callbacks: Vec::new(),
            module_loader: None,
            rejection_tracker: None,
            native_modules: NativeModules::new(),
            module_exports: None,
        };
        let call: Call = wrapper.set_module_loader(LoaderRef::Noop);
        Finished { calls: one(call), result: Ok(wrapper) }
    }
}

impl ResetPending {
    /// Takes the new context. Null has what is left taken down; the old context is freed already.
    ///
    /// The native modules and the export data are kept as they are, though they belong to the
    /// context that was freed: those modules must not be imported into the new one.
    pub fn created(self, context: Pointer) -> (finished: Finished<
        Result<ContextWrapper, ContextError>,
    >)
        ensures
            if context == 0 {
                &&& finished.issued() == self.wrapper.leftover_calls()
                &&& finished.result == Err::<ContextWrapper, _>(
                    ContextError::ContextCreationFailed,
                )
            } else {
                &&& finished.issued() == Seq::<SpecCall>::empty()
                &&& finished.result == Ok::<_, ContextError>(
                    ContextWrapper { context, ..self.wrapper },
                )
            },
    {
        if context == 0 {
            return Finished {
                calls: self.wrapper.take_down_leftovers(),
                result: Err(ContextError::ContextCreationFailed),
            };
        }
        let mut wrapper: ContextWrapper = self.wrapper;
        wrapper.context = context;
        Finished { calls: none(), result: Ok(wrapper) }
    }
}

impl SerializePending {
    /// Takes the converted value.
    pub fn encoded(self, value: Result<RawValue, ValueError>) -> (result: Result<
        OwnedValueRef,
        ExecutionError,
    >)
        ensures
            seen(result) == match value {
                Ok(value) => Ok(OwnedValueRef { context: self.context, value }),
                Err(error) => Err(SpecExecutionError::Conversion(error@)),
            },
    {
        match value {
            Ok(value) => Ok(OwnedValueRef { context: self.context, value }),
            Err(error) => Err(ExecutionError::Conversion(error)),
        }
    }
}

/// The error for a global object that is none.
pub open spec fn no_object_error() -> SpecExecutionError {
    SpecExecutionError::Conversion(SpecValueError::Internal("Expected an object"@))
}

impl GlobalPending {
    /// Takes the global object.
    pub fn obtained(self, raw: RawValue) -> (finished: Finished<
        Result<OwnedObjectRef, ExecutionError>,
    >)
        ensures
            if raw.tag == TAG_OBJECT {
                &&& finished.issued() == Seq::<SpecCall>::empty()
                &&& finished.result == Ok::<_, ExecutionError>(
                    OwnedObjectRef { value: OwnedValueRef { context: self.context, value: raw } },
                )
            } else {
                &&& finished.issued() == seq![
                    SpecCall::FreeValue { context: self.context, value: raw },
                ]
                &&& seen(finished.result) == Err::<OwnedObjectRef, _>(no_object_error())
            },
    {
        let object: Finished<Result<OwnedObjectRef, ValueError>> = OwnedObjectRef::new(
            OwnedValueRef { context: self.context, value: raw },
        );
        Finished {
            calls: object.calls,
            result: match object.result {
                Ok(object) => Ok(object),
                Err(error) => Err(ExecutionError::Conversion(error)),
            },
        }
    }
}

impl EvalPending {
    /// Takes the value of the code, and looks for its final value.
    pub fn evaluated(self, value: RawValue) -> (step: Resolution)
        ensures
            resolve_step(
                step,
                Awaited { runtime: self.runtime, context: self.context, value },
            ),
    {
        resolve(Awaited { runtime: self.runtime, context: self.context, value })
    }
}

impl FunctionCall {
    /// Takes what the function returned, and looks for its final value. The references to the
    /// function and to the arguments are the caller's to give back; none is given back here.
    pub fn returned(self, value: Result<RawValue, ExecutionError>) -> (step: Resolution)
        ensures
            match value {
                Ok(value) => resolve_step(
                    step,
                    Awaited { runtime: self.runtime, context: self.context, value },
                ),
                Err(error) => {
                    &&& step.issued() == Seq::<SpecCall>::empty()
                    &&& step.next == Next::<ResolutionPending, _>::Return(
                        Err::<OwnedValueRef, _>(error),
                    )
                },
            },
    {
        match value {
            Ok(value) => resolve(
                Awaited { runtime: self.runtime, context: self.context, value },
            ),
            Err(error) => Step { calls: none(), next: Next::Return(Err(error)) },
        }
    }
}

/// How a function for a global goes on: the global object is asked for. A value that is no
/// function is given back, and is an error.
pub open spec fn function_calls(
    context: Pointer,
    function: RawValue,
    verdict: Result<(), ValueError>,
) -> Seq<SpecCall> {
    match verdict {
        Ok(_) => seq![SpecCall::GetGlobalObject { context }],
        Err(_) => seq![SpecCall::FreeValue { context, value: function }],
    }
}

/// The error for a value that is no function; none where it is one.
fn take_function(context: Pointer, function: RawValue, verdict: Result<(), ValueError>) -> (taken: (
    Vec<Call>,
    Option<ExecutionError>,
))
    ensures
        seen_calls(taken.0@) == function_calls(context, function, verdict),
        seen_found(taken.1) == match verdict {
            Ok(_) => None,
            Err(error) => Some(SpecExecutionError::Conversion(error@)),
        },
{
    match verdict {
        Ok(_) => (one(Call::GetGlobalObject { context }), None),
        Err(error) => (
            one(Call::FreeValue { context, value: function }),
            Some(ExecutionError::Conversion(error)),
        ),
    }
}

impl CallbackPending {
    /// Takes the function, and whether it is one, and asks for the global object. A value that is
    /// no function is given back.
    pub fn created(self, function: RawValue, verdict: Result<(), ValueError>) -> (step: Step<
        CallbackGlobalPending,
        Result<OwnedValueRef, ExecutionError>,
    >)
        ensures
            step.issued() == function_calls(self.context, function, verdict),
            match verdict {
                Ok(_) => step.next matches Next::Await(pending) && pending.context == self.context
                    && pending.name@ == self.name@ && pending.function == function,
                Err(error) => step.next matches Next::Return(result) && seen(result) == Err::<
                    OwnedValueRef,
                    _,
                >(SpecExecutionError::Conversion(error@)),
            },
    {
        let context: Pointer = self.context;
        let (calls, error) = take_function(context, function, verdict);
        Step {
            calls,
            next: match error {
                None => Next::Await(
                    CallbackGlobalPending { context, name: self.name, function },
                ),
                Some(error) => Next::Return(Err(error)),
            },
        }
    }
}

/// Whether a function can be set on the global object: it is an object, and the name holds no zero
/// byte.
pub open spec fn can_set_global(global: RawValue, name: Seq<char>) -> bool {
    global.tag == TAG_OBJECT && zero_free(encode_utf8(name))
}

/// The call that sets a function on the global object.
pub open spec fn set_global_call(
    context: Pointer,
    global: RawValue,
    name: Seq<char>,
    function: RawValue,
) -> SpecCall {
    SpecCall::SetProperty { context, object: global, name: encode_utf8(name), value: function }
}

/// The calls where a function cannot be set on the global object: both are given back.
pub open spec fn refused_global_calls(
    context: Pointer,
    global: RawValue,
    function: RawValue,
) -> Seq<SpecCall> {
    let free_global = SpecCall::FreeValue { context, value: global };
    let free_function = SpecCall::FreeValue { context, value: function };
    if global.tag == TAG_OBJECT {
        seq![free_function, free_global]
    } else {
        seq![free_global, free_function]
    }
}

/// The error where a function cannot be set on the global object.
pub open spec fn refused_global_error(global: RawValue, name: Seq<char>) -> SpecExecutionError {
    if global.tag == TAG_OBJECT {
        name_error(name)
    } else {
        no_object_error()
    }
}

/// The call that sets a function on the global object, or what is done where it cannot be set.
fn set_global(context: Pointer, raw: RawValue, name: &str, function: RawValue) -> (set: Result<
    Call,
    (Vec<Call>, ExecutionError),
>)
    ensures
        match set {
            Ok(call) => can_set_global(raw, name@) && call@ == set_global_call(
                context,
                raw,
                name@,
                function,
            ),
            Err((calls, error)) => {
                &&& !can_set_global(raw, name@)
                &&& seen_calls(calls@) == refused_global_calls(context, raw, function)
                &&& error@ == refused_global_error(raw, name@)
            },
        },
{
    let global: Finished<Result<OwnedObjectRef, ExecutionError>> = (GlobalPending {
        context,
    }).obtained(raw);
    match global.result {
        Ok(object) => match set_property_call(context, raw, name, function) {
            Ok(call) => Ok(call),
            Err(error) => Err(
                (
                    two(
                        Call::FreeValue { context, value: function },
                        object.into_value().release(),
                    ),
                    error,
                ),
            ),
        },
        Err(error) => {
            let mut calls: Vec<Call> = global.calls;
            add_call(&mut calls, Call::FreeValue { context, value: function });
            assert(seen_calls(calls@) =~= refused_global_calls(context, raw, function));
            Err((calls, error))
        },
    }
}

impl CallbackGlobalPending {
    /// Takes the global object, and sets the function on it, with a reference of its own. Where it
    /// is no object, or where the name holds a zero byte, both it and the function are given back.
    pub fn obtained(self, raw: RawValue) -> (step: Step<
        CallbackSetPending,
        Result<OwnedValueRef, ExecutionError>,
    >)
        ensures
            if can_set_global(raw, self.name@) {
                &&& step.issued() == seq![
                    SpecCall::DupValue { context: self.context, value: self.function },
                    set_global_call(self.context, raw, self.name@, self.function),
                ]
                &&& step.next == Next::<_, Result<OwnedValueRef, ExecutionError>>::Await(
                    CallbackSetPending {
                        context: self.context,
                        global: raw,
                        function: self.function,
                    },
                )
            } else {
                &&& step.issued() == refused_global_calls(self.context, raw, self.function)
                &&& step.next matches Next::Return(result) && seen(result) == Err::<
                    OwnedValueRef,
                    _,
                >(refused_global_error(raw, self.name@))
            },
    {
        let context: Pointer = self.context;
        let function: RawValue = self.function;
        match set_global(context, raw, self.name.as_str(), function) {
            Ok(call) => Step {
                calls: two(Call::DupValue { context, value: function }, call),
                next: Next::Await(CallbackSetPending { context, global: raw, function }),
            },
            Err((calls, error)) => Step { calls, next: Next::Return(Err(error)) },
        }
    }
}

impl CallbackSetPending {
    /// Takes the engine's status, and gives the global object back. The function is the result;
    /// where it could not be set, it is given back too.
    pub fn done(self, status: i32) -> (finished: Finished<Result<OwnedValueRef, ExecutionError>>)
        ensures
            match set_outcome(status) {
                Ok(_) => {
                    &&& finished.issued() == seq![
                        SpecCall::FreeValue { context: self.context, value: self.global },
                    ]
                    &&& finished.result == Ok::<_, ExecutionError>(
                        OwnedValueRef { context: self.context, value: self.function },
                    )
                },
                Err(error) => {
                    &&& finished.issued() == seq![
                        SpecCall::FreeValue { context: self.context, value: self.global },
                        SpecCall::FreeValue { context: self.context, value: self.function },
                    ]
                    &&& seen(finished.result) == Err::<OwnedValueRef, _>(error)
                },
            },
    {
        let context: Pointer = self.context;
        let free_global: Call = Call::FreeValue { context, value: self.global };
        match SetPending.done(status) {
            Ok(_) => Finished {
                calls: one(free_global),
                result: Ok(OwnedValueRef { context, value: self.function }),
            },
            Err(error) => Finished {
                calls: two(free_global, Call::FreeValue { context, value: self.function }),
                result: Err(error),
            },
        }
    }
}

impl AddCallbackPending {
    /// Takes the function, and whether it is one, and asks for the global object. A value that is
    /// no function is given back.
    pub fn created(self, function: RawValue, verdict: Result<(), ValueError>) -> (step: Step<
        AddGlobalPending,
        Result<(), ExecutionError>,
    >)
        ensures
            step.issued() == function_calls(self.context, function, verdict),
            match verdict {
                Ok(_) => step.next matches Next::Await(pending) && pending.context == self.context
                    && pending.name@ == self.name@ && pending.function == function,
                Err(error) => step.next matches Next::Return(result) && seen(result) == Err::<
                    (),
                    _,
                >(SpecExecutionError::Conversion(error@)),
            },
    {
        let context: Pointer = self.context;
        let (calls, error) = take_function(context, function, verdict);
        Step {
            calls,
            next: match error {
                None => Next::Await(AddGlobalPending { context, name: self.name, function }),
                Some(error) => Next::Return(Err(error)),
            },
        }
    }
}

impl AddGlobalPending {
    /// Takes the global object, and sets the function on it. Where it is no object, or where the
    /// name holds a zero byte, both it and the function are given back.
    pub fn obtained(self, raw: RawValue) -> (step: Step<AddSetPending, Result<(), ExecutionError>>)
        ensures
            if can_set_global(raw, self.name@) {
                &&& step.issued() == seq![
                    set_global_call(self.context, raw, self.name@, self.function),
                ]
                &&& step.next == Next::<_, Result<(), ExecutionError>>::Await(
                    AddSetPending { context: self.context, global: raw },
                )
            } else {
                &&& step.issued() == refused_global_calls(self.context, raw, self.function)
                &&& step.next matches Next::Return(result) && seen(result) == Err::<(), _>(
                    refused_global_error(raw, self.name@),
                )
            },
    {
        let context: Pointer = self.context;
        match set_global(context, raw, self.name.as_str(), self.function) {
            Ok(call) => Step {
                calls: one(call),
                next: Next::Await(AddSetPending { context, global: raw }),
            },
            Err((calls, error)) => Step { calls, next: Next::Return(Err(error)) },
        }
    }
}

impl AddSetPending {
    /// Takes the engine's status, and gives the global object back.
    pub fn done(self, status: i32) -> (finished: Finished<Result<(), ExecutionError>>)
        ensures
            finished.issued() == seq![
                SpecCall::FreeValue { context: self.context, value: self.global },
            ],
            seen(finished.result) == set_outcome(status),
    {
        Finished {
            calls: one(Call::FreeValue { context: self.context, value: self.global }),
            result: SetPending.done(status),
        }
    }
}

impl JobPending {
    /// Takes the engine's status: whether there was a job, or a negative number where the job
    /// failed.
    pub fn done(self, status: i32) -> (step: Step<FailurePending, Result<bool, ExecutionError>>)
        ensures
            if status < 0 {
                &&& step.issued() == seq![SpecCall::GetException { context: self.context }]
                &&& step.next == Next::<_, Result<bool, ExecutionError>>::Await(
                    FailurePending::of(self.context, Fallback::UnknownException),
                )
            } else {
                &&& step.issued() == Seq::<SpecCall>::empty()
                &&& step.next == Next::<FailurePending, _>::Return(
                    Ok::<bool, ExecutionError>(status != 0),
                )
            },
    {
        if status < 0 {
            fail(self.context, Fallback::UnknownException)
        } else {
            Step { calls: none(), next: Next::Return(Ok(status != 0)) }
        }
    }
}

impl ModuleNamespacePending {
    /// Takes the namespace of the native module, and gives it back. An exception is looked up.
    pub fn obtained(self, namespace: RawValue) -> (step: Step<
        FailurePending,
        Result<(), ExecutionError>,
    >)
        ensures
            if namespace.tag == TAG_EXCEPTION {
                &&& step.issued() == seq![SpecCall::GetException { context: self.context }]
                &&& step.next == Next::<_, Result<(), ExecutionError>>::Await(
                    FailurePending::of(self.context, Fallback::ModuleNamespace),
                )
            } else {
                &&& step.issued() == seq![
                    SpecCall::FreeValue { context: self.context, value: namespace },
                ]
                &&& step.next == Next::<FailurePending, _>::Return(Ok::<(), ExecutionError>(()))
            },
    {
        if namespace.is_exception() {
            fail(self.context, Fallback::ModuleNamespace)
        } else {
            Step {
                calls: one(Call::FreeValue { context: self.context, value: namespace }),
                next: Next::Return(Ok(())),
            }
        }
    }
}

impl SourcePending {
    /// Takes the source of the module, and evaluates it as a module under its name.
    pub fn loaded(self, source: Result<String, LoadError>) -> (step: Step<
        ModulePending,
        Result<(), ExecutionError>,
    >)
        ensures
            match source {
                Ok(code) => if zero_free(encode_utf8(self.name@)) && zero_free(
                    encode_utf8(code@),
                ) {
                    &&& step.issued() == eval_calls(
                        self.context,
                        code@,
                        EVAL_TYPE_MODULE,
                        self.name@,
                    )
                    &&& step.next == Next::<_, Result<(), ExecutionError>>::Await(
                        ModulePending { runtime: self.runtime, context: self.context },
                    )
                } else {
                    &&& step.issued() == Seq::<SpecCall>::empty()
                    &&& step.next matches Next::Return(result) && seen(result) == Err::<(), _>(
                        eval_name_error(code@, self.name@),
                    )
                },
                Err(error) => {
                    &&& step.issued() == Seq::<SpecCall>::empty()
                    &&& step.next matches Next::Return(result) && seen(result) == Err::<(), _>(
                        SpecExecutionError::Internal("Fail to load module:"@ + error.message@),
                    )
                },
            },
    {
        match source {
            Ok(code) => {
                match eval_call(
                    self.context,
                    code.as_str(),
                    eval_type_module(),
                    self.name.as_str(),
                ) {
                    Ok(call) => Step {
                        calls: one(call),
                        next: Next::Await(
                            ModulePending { runtime: self.runtime, context: self.context },
                        ),
                    },
                    Err(error) => Step { calls: none(), next: Next::Return(Err(error)) },
                }
            },
            Err(error) => {
                let mut text: String = "Fail to load module:".to_owned();
                text.append(error.message.as_str());
                Step { calls: none(), next: Next::Return(Err(ExecutionError::Internal(text))) }
            },
        }
    }
}

impl ModulePending {
    /// Takes the value of the module, and looks for its final value.
    pub fn evaluated(&self, value: RawValue) -> (step: Resolution)
        ensures
            resolve_step(
                step,
                Awaited { runtime: self.runtime, context: self.context, value },
            ),
    {
        resolve(Awaited { runtime: self.runtime, context: self.context, value })
    }

    /// Takes the final value of the module, and gives it back.
    pub fn resolved(self, value: Result<OwnedValueRef, ExecutionError>) -> (finished: Finished<
        Result<(), ExecutionError>,
    >)
        ensures
            match value {
                Ok(value) => {
                    &&& finished.issued() == seq![
                        SpecCall::FreeValue { context: value.context, value: value.value },
                    ]
                    &&& finished.result == Ok::<(), ExecutionError>(())
                },
                Err(error) => {
                    &&& finished.issued() == Seq::<SpecCall>::empty()
                    &&& finished.result == Err::<(), _>(error)
                },
            },
    {
        match value {
            Ok(value) => Finished { calls: one(value.release()), result: Ok(()) },
            Err(error) => Finished { calls: none(), result: Err(error) },
        }
    }
}

} // verus!
