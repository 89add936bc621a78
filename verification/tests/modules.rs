use deft_quick_js::call::{Call, CallOf, LoaderRef, Next};
use deft_quick_js::context::ContextWrapper;
use deft_quick_js::cstring::{make_cstring, CString};
use deft_quick_js::engine::COMPILE_MODULE;
use deft_quick_js::error::{ExecutionError, NulErrorOf, ValueError};
use deft_quick_js::loader::{
    quickjs_rs_module_loader, quickjs_rs_module_normalize_func, FsJsModuleLoader, JsModuleLoader,
    LoadError, LoadErrorKind, NamePending, NoopModuleLoader, NormalizePending,
};
use deft_quick_js::module_builder::NativeModuleBuilder;
use deft_quick_js::module_init::native_module_init;
use deft_quick_js::registry::{ModuleExportsData, NativeModules};
use deft_quick_js::value::{RawValue, TAG_EXCEPTION, TAG_OBJECT};

const RUNTIME: u64 = 0x1000;
const CONTEXT: u64 = 0x2000;
const MODULE: u64 = 0x7000;

fn context() -> ContextWrapper {
    match ContextWrapper::new(None).pending.created(RUNTIME).next {
        Next::Await(pending) => pending.created(CONTEXT).result.unwrap(),
        Next::Return(_) => panic!("no context was asked for"),
    }
}

fn object(payload: u64) -> RawValue {
    RawValue { tag: TAG_OBJECT, payload }
}

fn c(text: &str) -> CString {
    make_cstring(text.as_bytes().to_vec()).unwrap()
}

fn free(value: RawValue) -> Call {
    CallOf::FreeValue { context: CONTEXT, value }
}

fn dup(value: RawValue) -> Call {
    CallOf::DupValue { context: CONTEXT, value }
}

fn pending<P, T>(next: Next<P, T>) -> P {
    match next {
        Next::Await(pending) => pending,
        Next::Return(_) => panic!("the operation is done"),
    }
}

fn builder(
    context: &mut ContextWrapper,
    name: &str,
    exports: &[(&str, u64)],
) -> NativeModuleBuilder {
    let mut builder = context.create_module(name);
    for (export, payload) in exports {
        let asked = builder.add_function(context, export, 2, *payload);
        assert_eq!(
            asked.calls,
            vec![CallOf::NewFunction { context: CONTEXT, closure: *payload, arguments: 2 }]
        );
        builder = asked.pending.created(object(*payload));
    }
    builder
}

fn register(name: &str) -> Call {
    CallOf::AddModuleExport { context: CONTEXT, module: MODULE, name: c(name) }
}

fn zero_byte(position: usize, bytes: &[u8]) -> ExecutionError {
    ExecutionError::Conversion(ValueError::StringWithZeroBytes(NulErrorOf {
        position,
        bytes: bytes.to_vec(),
    }))
}

#[test]
fn a_native_module_is_built() {
    let mut wrapper = context();
    let builder = builder(&mut wrapper, "my_module", &[("fib", 1), ("add", 2)]);
    assert_eq!(wrapper.callbacks, vec![1, 2]);
    let step = builder.build(&wrapper);
    assert_eq!(
        step.calls,
        vec![CallOf::NewModule { context: CONTEXT, name: c("my_module") }]
    );
    let step = pending(step.next).created(&mut wrapper, MODULE);
    assert_eq!(
        step.calls,
        vec![
            register("fib"),
            register("add"),
            dup(object(1)),
            dup(object(2)),
            CallOf::SetContextOpaque { context: CONTEXT },
            CallOf::NewObject { context: CONTEXT },
        ]
    );
    assert_eq!(wrapper.native_modules_ptr().get("my_module"), Some(MODULE));
    let namespace = object(99);
    let set = |name: &str, value: RawValue| CallOf::SetProperty {
        context: CONTEXT,
        object: namespace,
        name: c(name),
        value,
    };
    let finished = pending(step.next).created(namespace);
    assert_eq!(
        finished.calls,
        vec![
            dup(object(1)),
            set("fib", object(1)),
            dup(object(2)),
            set("add", object(2)),
            free(object(1)),
            free(object(2)),
        ]
    );
    assert_eq!(finished.result, Ok(namespace));
    assert_eq!(
        wrapper.teardown(),
        vec![
            free(object(1)),
            free(object(2)),
            CallOf::FreeContext { context: CONTEXT },
            CallOf::FreeRuntime { runtime: RUNTIME },
        ]
    );
}

#[test]
fn a_second_module_adds_to_the_export_data() {
    let mut wrapper = context();
    for (name, payload) in [("a", 1), ("b", 2), ("a", 3)] {
        let builder = builder(&mut wrapper, name, &[("f", payload)]);
        let step = pending(builder.build(&wrapper).next).created(&mut wrapper, MODULE + payload);
        let opaque = CallOf::SetContextOpaque { context: CONTEXT };
        assert_eq!(step.calls.contains(&opaque), payload == 1);
    }
    assert_eq!(wrapper.native_modules.get("a"), Some(MODULE + 3));
    assert_eq!(wrapper.native_modules.get("b"), Some(MODULE + 2));
    let data = wrapper.module_exports.as_ref().unwrap();
    assert_eq!(data.len(), 3);
    let init = |name: &str| {
        let p = pending(native_module_init(CONTEXT, MODULE, true).next);
        p.named(4).pending.converted(0x500, name.as_bytes(), data).calls
    };
    let export = |payload: u64| CallOf::SetModuleExport {
        context: CONTEXT,
        module: MODULE,
        name: c("f"),
        value: object(payload),
    };
    let text = CallOf::FreeCString { context: CONTEXT, text: 0x500 };
    let atom = || CallOf::FreeAtom { context: CONTEXT, atom: 4 };
    assert_eq!(
        init("a"),
        vec![text, atom(), dup(object(1)), export(1), dup(object(3)), export(3)]
    );
    assert_eq!(init("b").len(), 4);
    assert_eq!(init("b")[3], export(2));
    assert_eq!(init("c").len(), 2);
}

#[test]
fn a_module_without_exports_is_built() {
    let mut wrapper = context();
    let builder = wrapper.create_module("empty");
    let step = pending(builder.build(&wrapper).next).created(&mut wrapper, MODULE);
    assert_eq!(
        step.calls,
        vec![
            CallOf::SetContextOpaque { context: CONTEXT },
            CallOf::NewObject { context: CONTEXT },
        ]
    );
    assert_eq!(pending(step.next).created(object(5)).calls, vec![]);
}

#[test]
fn a_module_that_the_engine_does_not_create() {
    let mut wrapper = context();
    let builder = builder(&mut wrapper, "m", &[("f", 1), ("g", 2)]);
    let step = pending(builder.build(&wrapper).next).created(&mut wrapper, 0);
    assert_eq!(step.calls, vec![free(object(1)), free(object(2))]);
    assert_eq!(
        step.next,
        Next::Return(Err(ExecutionError::Internal("Failed to create native module".to_string())))
    );
    assert_eq!(wrapper.native_modules.get("m"), None);
    assert_eq!(wrapper.module_exports, None);
}

#[test]
fn module_names_with_a_zero_byte_are_refused() {
    let mut wrapper = context();
    let step = builder(&mut wrapper, "m\0", &[("f", 1)]).build(&wrapper);
    assert_eq!(step.calls, vec![]);
    assert_eq!(step.next, Next::Return(Err(zero_byte(1, b"m\0"))));
    let builder = builder(&mut wrapper, "m", &[("f", 1), ("\0g", 2), ("h\0", 3)]);
    let step = pending(builder.build(&wrapper).next).created(&mut wrapper, MODULE);
    assert_eq!(step.calls, vec![register("f")]);
    assert_eq!(step.next, Next::Return(Err(zero_byte(0, b"\0g"))));
    assert_eq!(wrapper.native_modules.get("m"), None);
    assert_eq!(wrapper.module_exports, None);
}

#[test]
fn the_init_callback_can_fail() {
    let step = native_module_init(CONTEXT, MODULE, false);
    assert_eq!(step.calls, vec![]);
    assert_eq!(step.next, Next::Return(-1));
    let step = native_module_init(CONTEXT, MODULE, true);
    assert_eq!(step.calls, vec![CallOf::GetModuleName { context: CONTEXT, module: MODULE }]);
    let asked = pending(step.next).named(4);
    assert_eq!(asked.calls, vec![CallOf::AtomToCString { context: CONTEXT, atom: 4 }]);
    let data = ModuleExportsData::new();
    let finished = asked.pending.converted(0, b"", &data);
    assert_eq!(finished.calls, vec![CallOf::FreeAtom { context: CONTEXT, atom: 4 }]);
    assert_eq!(finished.result, -1);
    let asked = pending(native_module_init(CONTEXT, MODULE, true).next).named(4);
    let finished = asked.pending.converted(0x500, &[0xff], &data);
    assert_eq!(
        finished.calls,
        vec![
            CallOf::FreeCString { context: CONTEXT, text: 0x500 },
            CallOf::FreeAtom { context: CONTEXT, atom: 4 },
        ]
    );
    assert_eq!(finished.result, -1);
}

fn normalized(base: &str, name: &str, loader: Option<LoaderRef>) -> (Vec<Call>, NormalizePending) {
    let step = quickjs_rs_module_normalize_func(CONTEXT, Some(&c(base)), Some(&c(name)), loader);
    (step.calls, pending(step.next))
}

#[test]
fn a_module_name_is_normalized_by_default() {
    let (calls, p) = normalized("a/b.js", "./c.js", None);
    assert_eq!(calls, vec![CallOf::Malloc { context: CONTEXT, size: 1 + 6 + 2 }]);
    assert_eq!(p, NormalizePending::Name(NamePending::Block(c("a/c.js"))));
    let finished = NamePending::Block(c("a/c.js")).obtained(0x600);
    assert_eq!(
        finished.calls,
        vec![CallOf::WriteString { block: 0x600, text: c("a/c.js") }]
    );
    assert_eq!(finished.result, 0x600);
    let finished = NamePending::Block(c("a/c.js")).obtained(0);
    assert_eq!(finished.calls, vec![]);
    assert_eq!(finished.result, 0);
    let (calls, p) = normalized("a/b.js", "c.js", None);
    assert_eq!(calls, vec![CallOf::Strdup { context: CONTEXT, text: c("c.js") }]);
    assert_eq!(p, NormalizePending::Name(NamePending::Copy));
    assert_eq!(NamePending::Copy.obtained(0x601).result, 0x601);
}

#[test]
fn a_missing_name_is_null() {
    for (base, name) in [(None, Some(c("x"))), (Some(c("x")), None), (None, None)] {
        let step = quickjs_rs_module_normalize_func(
            CONTEXT,
            base.as_ref(),
            name.as_ref(),
            Some(LoaderRef::Noop),
        );
        assert_eq!(step.calls, vec![]);
        assert_eq!(step.next, Next::Return(0));
    }
}

#[test]
fn the_loader_resolves_names_first() {
    let resolve = |answer: Option<String>| {
        let (calls, p) = normalized("test/main.js", "./fib", Some(LoaderRef::User(1)));
        assert_eq!(
            calls,
            vec![CallOf::ResolveModule {
                loader: LoaderRef::User(1),
                base: "test/main.js".to_string(),
                name: "./fib".to_string(),
            }]
        );
        match p {
            NormalizePending::Resolve(p) => p.resolved(answer),
            NormalizePending::Name(_) => panic!("the loader was not asked"),
        }
    };
    let asked = resolve(Some("sys://fib".to_string()));
    assert_eq!(asked.calls, vec![CallOf::Strdup { context: CONTEXT, text: c("sys://fib") }]);
    assert_eq!(asked.pending, NamePending::Copy);
    let asked = resolve(Some("a\0b".to_string()));
    assert_eq!(asked.calls, vec![CallOf::Strdup { context: CONTEXT, text: CString::empty() }]);
    let asked = resolve(None);
    assert_eq!(asked.pending, NamePending::Block(c("test/fib")));
    assert_eq!(NoopModuleLoader.resolve_module_path("a", "b"), None);
}

#[test]
fn names_that_are_not_text_are_not_for_the_loader() {
    let odd = make_cstring(vec![0x2e, 0x2f, 0xff]).unwrap();
    let step = quickjs_rs_module_normalize_func(
        CONTEXT,
        Some(&c("a/b")),
        Some(&odd),
        Some(LoaderRef::User(1)),
    );
    assert_eq!(
        pending(step.next),
        NormalizePending::Name(NamePending::Block(
            make_cstring(vec![0x61, 0x2f, 0xff]).unwrap()
        ))
    );
    let step = quickjs_rs_module_loader(
        CONTEXT,
        &odd,
        &NativeModules::new(),
        Some(LoaderRef::User(1)),
    );
    assert_eq!(step.calls, vec![]);
    assert_eq!(step.next, Next::Return(0));
}

#[test]
fn an_import_finds_native_modules_first() {
    let mut modules = NativeModules::new();
    modules.insert("na\u{ef}ve".to_string(), MODULE);
    for loader in [None, Some(LoaderRef::Noop), Some(LoaderRef::User(2))] {
        let step = quickjs_rs_module_loader(CONTEXT, &c("na\u{ef}ve"), &modules, loader);
        assert_eq!(step.calls, vec![]);
        assert_eq!(step.next, Next::Return(MODULE));
    }
    let step = quickjs_rs_module_loader(CONTEXT, &c("other"), &modules, None);
    assert_eq!(step.next, Next::Return(0));
}

#[test]
fn an_import_is_loaded_and_compiled() {
    let modules = NativeModules::new();
    let load = || {
        let step =
            quickjs_rs_module_loader(CONTEXT, &c("lib"), &modules, Some(LoaderRef::User(2)));
        assert_eq!(
            step.calls,
            vec![CallOf::LoadModule { loader: LoaderRef::User(2), name: "lib".to_string() }]
        );
        pending(step.next)
    };
    let step = load().loaded(Ok("export default 1".to_string()));
    assert_eq!(
        step.calls,
        vec![CallOf::Eval {
            context: CONTEXT,
            code: c("export default 1"),
            length: 16,
            filename: c("lib"),
            flags: COMPILE_MODULE,
        }]
    );
    let function = RawValue { tag: -3, payload: 0x900 };
    let finished = pending(step.next).compiled(function);
    assert_eq!(
        finished.calls,
        vec![
            CallOf::SetImportMeta {
                context: CONTEXT,
                function,
                use_realpath: false,
                is_main: false,
            },
            free(function),
        ]
    );
    assert_eq!(finished.result, 0x900);
    let step = load().loaded(Ok("syntax error".to_string()));
    let finished = pending(step.next).compiled(RawValue { tag: TAG_EXCEPTION, payload: 0 });
    assert_eq!(finished.calls, vec![]);
    assert_eq!(finished.result, 0);
    let gone = LoadError { kind: LoadErrorKind::NotFound, message: "gone".to_string() };
    assert_eq!(load().loaded(Err(gone)).next, Next::Return(0));
}

#[test]
fn loaders() {
    assert_eq!(FsJsModuleLoader::new("/srv/js").base(), "/srv/js");
    assert_eq!(
        NoopModuleLoader.load("anything"),
        Err(LoadError {
            kind: LoadErrorKind::NotFound,
            message: "No module loader configured".to_string(),
        })
    );
}

#[test]
fn a_loader_resolves_nothing_unless_it_says_so() {
    struct Counting(u32);
    impl JsModuleLoader for Counting {
        fn load(&mut self, module_name: &str) -> Result<String, LoadError> {
            self.0 += 1;
            Ok(format!("// {}", module_name))
        }
    }
    let mut loader = Counting(0);
    assert_eq!(loader.resolve_module_path("a.js", "./b.js"), None);
    assert_eq!(loader.0, 0);
    assert_eq!(loader.load("x"), Ok("// x".to_string()));
    assert_eq!(loader.0, 1);
}
