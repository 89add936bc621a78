//! Constants of the engine.

use vstd::prelude::*;

verus! {

/// The flag for module code.
///
/// Trusted: the constant `libquickjs_sys::JS_EVAL_TYPE_MODULE` is one.
#[verifier::external_body]
pub(crate) fn eval_type_module() -> (flag: u32)
    ensures
        flag == EVAL_TYPE_MODULE,
{
    libquickjs_sys::JS_EVAL_TYPE_MODULE
}

/// The flag for code that is only to be compiled.
///
/// Trusted: the constant `libquickjs_sys::JS_EVAL_FLAG_COMPILE_ONLY` is thirty-two.
#[verifier::external_body]
pub(crate) fn eval_flag_compile_only() -> (flag: u32)
    ensures
        flag == EVAL_FLAG_COMPILE_ONLY,
{
    libquickjs_sys::JS_EVAL_FLAG_COMPILE_ONLY
}

/// Evaluate as a module.
pub const EVAL_TYPE_MODULE: u32 = 1;

/// Compile, do not run.
pub const EVAL_FLAG_COMPILE_ONLY: u32 = 32;

/// The flags for a module that is only to be compiled.
pub const COMPILE_MODULE: i32 = 33;

/// The flags under which a module is compiled for an import.
pub(crate) fn compile_module_flags() -> (flags: i32)
    ensures
        flags == COMPILE_MODULE,
{
    let flags: u32 = eval_type_module() | eval_flag_compile_only();
    assert(1u32 | 32u32 == 33u32) by (bit_vector);
    flags as i32
}

} // verus!
