use deft_quick_js::call::{Call, CallOf, LoaderRef, Next};
use deft_quick_js::console::{console_message, level_of, Level};
use deft_quick_js::context::{ContextWrapper, ExecutePending};
use deft_quick_js::cstring::make_cstring;
use deft_quick_js::engine::EVAL_TYPE_MODULE;
use deft_quick_js::error::{ContextError, ExecutionError, NulErrorOf, ValueError};
use deft_quick_js::exception::{FailurePending, Fallback};
use deft_quick_js::loader::{JsModuleLoader, LoadError, LoadErrorKind, NoopModuleLoader};
use deft_quick_js::registry::ModuleExportsData;
use deft_quick_js::resolve::ResolutionPending;
use deft_quick_js::value::{
    JsValue, RawValue, TAG_EXCEPTION, TAG_INT, TAG_NULL, TAG_OBJECT, TAG_STRING,
};
use deft_quick_js::value_ref::OwnedValueRef;

const RUNTIME: u64 = 0x1000;
const CONTEXT: u64 = 0x2000;

fn context() -> ContextWrapper {
    match ContextWrapper::new(None).pending.created(RUNTIME).next {
        Next::Await(pending) => pending.created(CONTEXT).result.unwrap(),
        Next::Return(_) => panic!("no context was asked for"),
    }
}

fn raw(tag: i64, payload: u64) -> RawValue {
    RawValue { tag, payload }
}

fn free(value: RawValue) -> Call {
    CallOf::FreeValue { context: CONTEXT, value }
}

fn c(text: &str) -> deft_quick_js::CString {
    make_cstring(text.as_bytes().to_vec()).unwrap()
}

fn text(s: &str) -> JsValue {
    JsValue::String(s.to_string())
}

fn internal(s: &str) -> ExecutionError {
    ExecutionError::Internal(s.to_string())
}

fn zero_byte(position: usize, bytes: &[u8]) -> ExecutionError {
    ExecutionError::Conversion(ValueError::StringWithZeroBytes(NulErrorOf {
        position,
        bytes: bytes.to_vec(),
    }))
}

fn pending<P, T>(next: Next<P, T>) -> P {
    match next {
        Next::Await(pending) => pending,
        Next::Return(_) => panic!("the operation is done"),
    }
}

fn exception<T>(next: Next<ResolutionPending, T>) -> FailurePending {
    match pending(next) {
        ResolutionPending::Exception(failure) => failure,
        other => panic!("{:?}", other),
    }
}

fn failure_text(failure: FailurePending, message: &str) -> ExecutionError {
    let value = raw(TAG_OBJECT, 31);
    let step = failure.caught(value);
    assert_eq!(step.calls, vec![CallOf::Describe { context: CONTEXT, value }]);
    let finished = pending(step.next).described(Ok(message.to_string()));
    assert_eq!(finished.calls, vec![free(value)]);
    finished.result
}

#[test]
fn a_context_is_set_up() {
    let asked = ContextWrapper::new(Some(4096));
    assert_eq!(asked.calls, vec![CallOf::NewRuntime]);
    let step = asked.pending.created(RUNTIME);
    assert_eq!(
        step.calls,
        vec![
            CallOf::SetMemoryLimit { runtime: RUNTIME, limit: 4096 },
            CallOf::NewContext { runtime: RUNTIME },
        ]
    );
    let finished = pending(step.next).created(CONTEXT);
    assert_eq!(
        finished.calls,
        vec![CallOf::SetModuleLoader { runtime: RUNTIME, loader: LoaderRef::Noop }]
    );
    let context = finished.result.unwrap();
    assert_eq!(context.module_loader, Some(LoaderRef::Noop));
    assert_eq!(context.native_modules.get("fib"), None);
    assert_eq!(context.callbacks, Vec::<u64>::new());
    let step = ContextWrapper::new(None).pending.created(RUNTIME);
    assert_eq!(step.calls, vec![CallOf::NewContext { runtime: RUNTIME }]);
}

#[test]
fn a_context_that_cannot_be_set_up() {
    let step = ContextWrapper::new(Some(1)).pending.created(0);
    assert_eq!(step.calls, vec![]);
    assert_eq!(step.next, Next::Return(Err(ContextError::RuntimeCreationFailed)));
    let step = ContextWrapper::new(None).pending.created(RUNTIME);
    let finished = pending(step.next).created(0);
    assert_eq!(finished.calls, vec![CallOf::FreeRuntime { runtime: RUNTIME }]);
    assert_eq!(finished.result, Err(ContextError::ContextCreationFailed));
}

#[test]
fn a_context_is_taken_down() {
    assert_eq!(
        context().teardown(),
        vec![
            CallOf::FreeContext { context: CONTEXT },
            CallOf::FreeRuntime { runtime: RUNTIME },
        ]
    );
    let mut watched = context();
    assert_eq!(
        watched.set_host_promise_rejection_tracker(5),
        CallOf::SetRejectionTracker { runtime: RUNTIME, tracker: 5 }
    );
    assert_eq!(
        watched.teardown(),
        vec![
            CallOf::DropTracker { tracker: 5 },
            CallOf::FreeContext { context: CONTEXT },
            CallOf::FreeRuntime { runtime: RUNTIME },
        ]
    );
}

#[test]
fn a_context_is_reset() {
    let mut old = context();
    old.create_callback("f", 2, 41);
    old.set_module_loader(LoaderRef::User(3));
    let asked = old.reset();
    assert_eq!(
        asked.calls,
        vec![
            CallOf::FreeContext { context: CONTEXT },
            CallOf::NewContext { runtime: RUNTIME },
        ]
    );
    let finished = asked.pending.created(0x3000);
    assert_eq!(finished.calls, vec![]);
    let new = finished.result.unwrap();
    assert_eq!(new.context, 0x3000);
    assert_eq!(new.runtime, RUNTIME);
    assert_eq!(new.callbacks, Vec::<u64>::new());
    assert_eq!(new.module_loader, Some(LoaderRef::User(3)));
}

#[test]
fn a_context_that_cannot_be_reset_is_freed_once() {
    let mut old = context();
    old.set_host_promise_rejection_tracker(6);
    let mut data = ModuleExportsData::new();
    data.add_export("m", c("f"), raw(TAG_OBJECT, 70));
    old.module_exports = Some(data);
    let asked = old.reset();
    assert_eq!(
        asked.calls,
        vec![
            CallOf::FreeContext { context: CONTEXT },
            CallOf::NewContext { runtime: RUNTIME },
        ]
    );
    let failed = asked.pending.created(0);
    assert_eq!(failed.result, Err(ContextError::ContextCreationFailed));
    assert_eq!(
        failed.calls,
        vec![
            CallOf::DropTracker { tracker: 6 },
            CallOf::FreeRuntimeValue { runtime: RUNTIME, value: raw(TAG_OBJECT, 70) },
            CallOf::FreeRuntime { runtime: RUNTIME },
        ]
    );
}

#[test]
fn code_is_evaluated() {
    let step = context().eval("1 + 1", 0, "main.js");
    assert_eq!(
        step.calls,
        vec![CallOf::Eval {
            context: CONTEXT,
            code: c("1 + 1"),
            length: 5,
            filename: c("main.js"),
            flags: 0,
        }]
    );
    let two = raw(TAG_INT, 2);
    let step = pending(step.next).evaluated(two);
    assert_eq!(step.calls, vec![]);
    assert_eq!(step.next, Next::Return(Ok(OwnedValueRef { context: CONTEXT, value: two })));
    let step = context().resolve_value(two);
    assert_eq!(step.calls, vec![]);
    assert_eq!(step.next, Next::Return(Ok(OwnedValueRef { context: CONTEXT, value: two })));
}

#[test]
fn the_length_of_code_is_in_bytes() {
    match context().eval("\u{e9}", 1, "f").calls.pop().unwrap() {
        CallOf::Eval { length, flags, .. } => assert_eq!((length, flags), (2, 1)),
        other => panic!("{:?}", other),
    }
}

#[test]
fn zero_bytes_are_refused_the_file_name_first() {
    let step = context().eval("a\0", 0, "f\0\0");
    assert_eq!(step.calls, vec![]);
    assert_eq!(step.next, Next::Return(Err(zero_byte(1, b"f\0\0"))));
    assert_eq!(
        context().eval("a\0", 0, "f").next,
        Next::Return(Err(zero_byte(1, b"a\0")))
    );
}

#[test]
fn an_exception_becomes_an_error() {
    let fail = || {
        let step = pending(context().eval("throw 1", 0, "f").next)
            .evaluated(raw(TAG_EXCEPTION, 0));
        assert_eq!(step.calls, vec![CallOf::GetException { context: CONTEXT }]);
        exception(step.next)
    };
    assert_eq!(
        failure_text(fail(), "Error: no"),
        ExecutionError::Exception(text("Error: no"))
    );
    assert_eq!(
        failure_text(fail(), "InternalError: out of memory"),
        ExecutionError::OutOfMemory
    );
    assert_eq!(
        failure_text(fail(), "out of memor"),
        ExecutionError::Exception(text("out of memor"))
    );
    let null = raw(TAG_NULL, 0);
    let step = fail().caught(null);
    assert_eq!(step.calls, vec![free(null)]);
    assert_eq!(step.next, Next::Return(ExecutionError::Exception(text("Unknown exception"))));
    let step = fail().caught(raw(TAG_EXCEPTION, 0));
    assert_eq!(step.next, Next::Return(internal("Could get exception from runtime")));
    let step = fail().caught(raw(TAG_STRING, 8));
    let finished = pending(step.next).described(Err(internal("no text")));
    assert_eq!(finished.calls, vec![free(raw(TAG_STRING, 8))]);
    assert_eq!(finished.result, internal("no text"));
}

#[test]
fn the_pending_exception_is_looked_up() {
    let asked = context().get_exception();
    assert_eq!(asked.calls, vec![CallOf::GetException { context: CONTEXT }]);
    let step = asked.pending.caught(raw(TAG_NULL, 0));
    assert_eq!(step.next, Next::Return(None));
    assert_eq!(ContextWrapper::ensure_no_excpetion(None), Ok(()));
    let step = context().get_exception().pending.caught(raw(TAG_OBJECT, 6));
    let found = pending(step.next).described(Ok("boom".to_string())).result;
    assert_eq!(
        ContextWrapper::ensure_no_excpetion(found),
        Err(ExecutionError::Exception(text("boom")))
    );
}

#[test]
fn a_function_is_called() {
    let call = context().call_function(raw(TAG_OBJECT, 4), vec![raw(TAG_INT, 1)]);
    assert_eq!(call.args, vec![raw(TAG_INT, 1)]);
    assert_eq!(
        call.returned(Ok(raw(TAG_INT, 7))).next,
        Next::Return(Ok(OwnedValueRef { context: CONTEXT, value: raw(TAG_INT, 7) }))
    );
    let call = context().call_function(raw(TAG_OBJECT, 4), vec![]);
    assert_eq!(call.returned(Err(internal("x"))).next, Next::Return(Err(internal("x"))));
    let call = context().call_function(raw(TAG_OBJECT, 4), vec![]);
    let step = call.returned(Ok(raw(TAG_EXCEPTION, 0)));
    assert_eq!(
        failure_text(exception(step.next), "TypeError"),
        ExecutionError::Exception(text("TypeError"))
    );
}

#[test]
fn values_are_converted() {
    let asked = context().serialize_value(JsValue::Null);
    assert_eq!(asked.calls, vec![CallOf::Encode { context: CONTEXT, value: JsValue::Null }]);
    assert_eq!(
        asked.pending.encoded(Ok(raw(TAG_NULL, 0))),
        Ok(OwnedValueRef { context: CONTEXT, value: raw(TAG_NULL, 0) })
    );
    assert_eq!(
        context().serialize_value(JsValue::Null).pending.encoded(Err(ValueError::UnexpectedType)),
        Err(ExecutionError::Conversion(ValueError::UnexpectedType))
    );
    assert_eq!(
        context().to_value(&raw(TAG_INT, 1)),
        CallOf::Decode { context: CONTEXT, value: raw(TAG_INT, 1) }
    );
}

#[test]
fn the_global_object_is_an_object() {
    let asked = context().global();
    assert_eq!(asked.calls, vec![CallOf::GetGlobalObject { context: CONTEXT }]);
    let global = raw(TAG_OBJECT, 12);
    assert_eq!(asked.pending.obtained(global).result.unwrap().value.value, global);
    let finished = context().global().pending.obtained(raw(TAG_EXCEPTION, 0));
    assert_eq!(finished.calls, vec![free(raw(TAG_EXCEPTION, 0))]);
    assert_eq!(
        finished.result,
        Err(ExecutionError::Conversion(ValueError::Internal("Expected an object".to_string())))
    );
}

#[test]
fn a_global_function_is_added() {
    let mut wrapper = context();
    let asked = wrapper.add_callback("hello", 2, 17);
    assert_eq!(wrapper.callbacks, vec![17]);
    assert_eq!(
        asked.calls,
        vec![CallOf::NewFunction { context: CONTEXT, closure: 17, arguments: 2 }]
    );
    let function = raw(TAG_OBJECT, 60);
    let global = raw(TAG_OBJECT, 61);
    let step = asked.pending.created(function, Ok(()));
    assert_eq!(step.calls, vec![CallOf::GetGlobalObject { context: CONTEXT }]);
    let step = pending(step.next).obtained(global);
    assert_eq!(
        step.calls,
        vec![CallOf::SetProperty {
            context: CONTEXT,
            object: global,
            name: c("hello"),
            value: function,
        }]
    );
    let finished = pending(step.next).done(1);
    assert_eq!(finished.calls, vec![free(global)]);
    assert_eq!(finished.result, Ok(()));
}

#[test]
fn a_global_function_that_cannot_be_added() {
    let function = raw(TAG_OBJECT, 60);
    let global = raw(TAG_OBJECT, 61);
    let start = |name: &str| {
        pending(context().add_callback(name, 0, 1).pending.created(function, Ok(())).next)
    };
    let step = context()
        .add_callback("f", 0, 1)
        .pending
        .created(function, Err(ValueError::UnexpectedType));
    assert_eq!(step.calls, vec![free(function)]);
    assert_eq!(
        step.next,
        Next::Return(Err(ExecutionError::Conversion(ValueError::UnexpectedType)))
    );
    let step = start("f").obtained(raw(TAG_NULL, 0));
    assert_eq!(step.calls, vec![free(raw(TAG_NULL, 0)), free(function)]);
    let step = start("f\0").obtained(global);
    assert_eq!(step.calls, vec![free(function), free(global)]);
    assert_eq!(step.next, Next::Return(Err(zero_byte(1, b"f\0"))));
    let finished = pending(start("f").obtained(global).next).done(-1);
    assert_eq!(finished.calls, vec![free(global)]);
    assert_eq!(
        finished.result,
        Err(ExecutionError::Exception(text("Could not set property")))
    );
}

#[test]
fn a_created_function_is_a_global() {
    let mut wrapper = context();
    let asked = wrapper.create_callback("sum", 2, 17);
    assert_eq!(wrapper.callbacks, vec![17]);
    assert_eq!(
        asked.calls,
        vec![CallOf::NewFunction { context: CONTEXT, closure: 17, arguments: 2 }]
    );
    let function = raw(TAG_OBJECT, 60);
    let global = raw(TAG_OBJECT, 61);
    let step = asked.pending.created(function, Ok(()));
    assert_eq!(step.calls, vec![CallOf::GetGlobalObject { context: CONTEXT }]);
    let step = pending(step.next).obtained(global);
    assert_eq!(
        step.calls,
        vec![
            CallOf::DupValue { context: CONTEXT, value: function },
            CallOf::SetProperty {
                context: CONTEXT,
                object: global,
                name: c("sum"),
                value: function,
            },
        ]
    );
    let finished = pending(step.next).done(1);
    assert_eq!(finished.calls, vec![free(global)]);
    assert_eq!(finished.result, Ok(OwnedValueRef { context: CONTEXT, value: function }));
}

#[test]
fn a_function_that_cannot_be_created() {
    let function = raw(TAG_OBJECT, 60);
    let global = raw(TAG_OBJECT, 61);
    let start = |name: &str| {
        pending(context().create_callback(name, 0, 1).pending.created(function, Ok(())).next)
    };
    let step = context()
        .create_callback("f", 0, 1)
        .pending
        .created(function, Err(ValueError::UnexpectedType));
    assert_eq!(step.calls, vec![free(function)]);
    assert_eq!(
        step.next,
        Next::Return(Err(ExecutionError::Conversion(ValueError::UnexpectedType)))
    );
    let step = start("f").obtained(raw(TAG_NULL, 0));
    assert_eq!(step.calls, vec![free(raw(TAG_NULL, 0)), free(function)]);
    assert_eq!(
        step.next,
        Next::Return(Err(ExecutionError::Conversion(ValueError::Internal(
            "Expected an object".to_string()
        ))))
    );
    let step = start("f\0").obtained(global);
    assert_eq!(step.calls, vec![free(function), free(global)]);
    assert_eq!(step.next, Next::Return(Err(zero_byte(1, b"f\0"))));
    let finished = pending(start("f").obtained(global).next).done(-1);
    assert_eq!(finished.calls, vec![free(global), free(function)]);
    assert_eq!(
        finished.result,
        Err(ExecutionError::Exception(text("Could not set property")))
    );
}

#[test]
fn a_pending_job_is_run() {
    let asked = context().execute_pending_job();
    assert_eq!(asked.calls, vec![CallOf::ExecutePendingJob { runtime: RUNTIME }]);
    assert_eq!(asked.pending.done(0).next, Next::Return(Ok(false)));
    assert_eq!(context().execute_pending_job().pending.done(1).next, Next::Return(Ok(true)));
    let step = context().execute_pending_job().pending.done(-1);
    assert_eq!(step.calls, vec![CallOf::GetException { context: CONTEXT }]);
    assert_eq!(
        pending(step.next).caught(raw(TAG_NULL, 0)).next,
        Next::Return(ExecutionError::Exception(text("Unknown exception")))
    );
}

#[test]
fn a_native_module_is_run_before_any_loader_is_asked() {
    let mut wrapper = context();
    wrapper.native_modules.insert("fib".to_string(), 0x70);
    wrapper.native_modules.insert("fib".to_string(), 0x71);
    let step = wrapper.execute_module("fib");
    assert_eq!(
        step.calls,
        vec![CallOf::GetModuleNamespace { context: CONTEXT, module: 0x71 }]
    );
    let namespace = raw(TAG_OBJECT, 3);
    match pending(step.next) {
        ExecutePending::Namespace(p) => {
            let step = p.obtained(namespace);
            assert_eq!(step.calls, vec![free(namespace)]);
            assert_eq!(step.next, Next::Return(Ok(())));
        }
        ExecutePending::Source(_) => panic!("the module is native"),
    }
    match pending(wrapper.execute_module("fib").next) {
        ExecutePending::Namespace(p) => {
            let step = p.obtained(raw(TAG_EXCEPTION, 0));
            let failure = pending(step.next);
            assert_eq!(failure.fallback, Fallback::ModuleNamespace);
            assert_eq!(
                failure.caught(raw(TAG_NULL, 0)).next,
                Next::Return(ExecutionError::Exception(text("Failed to get module namespace")))
            );
        }
        ExecutePending::Source(_) => panic!("the module is native"),
    }
}

#[test]
fn a_module_is_loaded_and_run() {
    let mut wrapper = context();
    assert_eq!(
        wrapper.set_module_loader(LoaderRef::User(8)),
        CallOf::SetModuleLoader { runtime: RUNTIME, loader: LoaderRef::User(8) }
    );
    let source = |wrapper: &ContextWrapper| match pending(wrapper.execute_module("lib").next) {
        ExecutePending::Source(p) => p,
        ExecutePending::Namespace(_) => panic!("the module is not native"),
    };
    assert_eq!(
        wrapper.execute_module("lib").calls,
        vec![CallOf::LoadModule { loader: LoaderRef::User(8), name: "lib".to_string() }]
    );
    let step = source(&wrapper).loaded(Ok("x".to_string()));
    assert_eq!(
        step.calls,
        vec![CallOf::Eval {
            context: CONTEXT,
            code: c("x"),
            length: 1,
            filename: c("lib"),
            flags: EVAL_TYPE_MODULE as i32,
        }]
    );
    let module = pending(step.next);
    let step = module.evaluated(raw(TAG_INT, 2));
    assert_eq!(step.calls, vec![]);
    let value = OwnedValueRef { context: CONTEXT, value: raw(TAG_OBJECT, 2) };
    let finished = module.resolved(Ok(value));
    assert_eq!(finished.calls, vec![free(raw(TAG_OBJECT, 2))]);
    assert_eq!(finished.result, Ok(()));
    let finished = pending(source(&wrapper).loaded(Ok("x".to_string())).next)
        .resolved(Err(internal("x")));
    assert_eq!(finished.calls, vec![]);
    assert_eq!(finished.result, Err(internal("x")));
    let step = pending(source(&wrapper).loaded(Ok("x".to_string())).next)
        .evaluated(raw(TAG_EXCEPTION, 0));
    assert_eq!(
        failure_text(exception(step.next), "SyntaxError"),
        ExecutionError::Exception(text("SyntaxError"))
    );
    assert_eq!(
        source(&wrapper).loaded(Ok("x\0".to_string())).next,
        Next::Return(Err(zero_byte(1, b"x\0")))
    );
    assert_eq!(
        source(&wrapper)
            .loaded(Err(LoadError { kind: LoadErrorKind::Other, message: "gone".to_string() }))
            .next,
        Next::Return(Err(internal("Fail to load module:gone")))
    );
    wrapper.module_loader = None;
    assert_eq!(
        wrapper.execute_module("lib").next,
        Next::Return(Err(internal("Module loader is not set")))
    );
}

#[test]
fn a_fresh_context_knows_no_module() {
    let step = context().execute_module("lib");
    assert_eq!(
        step.calls,
        vec![CallOf::LoadModule { loader: LoaderRef::Noop, name: "lib".to_string() }]
    );
    let answer = NoopModuleLoader.load("lib");
    match pending(step.next) {
        ExecutePending::Source(p) => assert_eq!(
            p.loaded(answer).next,
            Next::Return(Err(internal("Fail to load module:No module loader configured")))
        ),
        ExecutePending::Namespace(_) => panic!("there is no native module"),
    }
}

#[test]
fn the_console_is_a_global_function() {
    let mut wrapper = context();
    let asked = wrapper.set_console(0, 23);
    assert_eq!(asked.pending.name, "__console_write");
    assert_eq!(wrapper.callbacks, vec![23]);
}

#[test]
fn console_messages_have_a_level() {
    for (name, level) in [
        ("trace", Level::Trace),
        ("debug", Level::Debug),
        ("log", Level::Log),
        ("info", Level::Info),
        ("warn", Level::Warn),
        ("error", Level::Error),
    ] {
        assert_eq!(level_of(name), Some(level));
        assert_eq!(
            console_message(vec![text(name), JsValue::Int(1), text("x")]),
            Some((level, vec![JsValue::Int(1), text("x")]))
        );
    }
}

#[test]
fn other_console_calls_are_dropped() {
    assert_eq!(console_message(vec![]), None);
    assert_eq!(console_message(vec![text("log")]), None);
    assert_eq!(console_message(vec![text("Log"), JsValue::Null]), None);
    assert_eq!(console_message(vec![JsValue::Int(1), JsValue::Null]), None);
}
