//! The decision core of a QuickJS host binding.
//!
//! The binding embeds the engine in a host program: it evaluates code, reads and sets properties,
//! makes host functions callable from scripts, builds native modules, and answers the engine's
//! questions about module names and sources. All of that is calls into a C library. This crate
//! holds none of those calls; it holds what is decided between them.
//!
//! An operation hands out the calls to make and a pending state. The code around it makes the
//! calls, hands what the last one returned to the pending state, and so on until there is a
//! result (see [`call`]). The contracts say which calls are made, in which order and with which
//! arguments, and what the result is for everything that the engine can answer.

pub mod call;
pub mod callback;
pub mod console;
pub mod context;
pub mod cstring;
pub mod engine;
pub mod error;
pub mod exception;
pub mod laws;
pub mod ledger;
pub mod loader;
pub mod module_builder;
pub mod module_init;
pub mod object_ref;
pub mod path;
pub mod registry;
pub mod resolve;
pub mod text;
pub mod value;
pub mod value_ref;

pub use call::{Asked, Call, Finished, LoaderRef, Next, Step};
pub use context::ContextWrapper;
pub use cstring::{make_cstring, CString};
pub use error::{ContextError, ExecutionError, ValueError};
pub use loader::{FsJsModuleLoader, JsModuleLoader, NoopModuleLoader};
pub use module_builder::NativeModuleBuilder;
pub use object_ref::OwnedObjectRef;
pub use value::{ClassId, JsValue, RawValue, ResourceObject, ResourceValue, TAG_EXCEPTION};
pub use value_ref::OwnedValueRef;
