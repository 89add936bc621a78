# deft_quick_js

The decision core of a QuickJS host binding, written and verified in Verus.

A binding to a C engine is mostly calls: create a context, evaluate code, read a property, register
the exports of a native module, answer the engine's question about a module name. What can go wrong
lies between the calls: which of them are made, in which order, what is given back, and what each
answer means. That part is here, with contracts.

* `src/` is the library. An operation hands out calls and a pending state, and goes on when it is
  given what the last call returned (`call.rs`). `context.rs`, `value_ref.rs`, `object_ref.rs`,
  `exception.rs`, `resolve.rs`, `callback.rs`, `module_builder.rs`, `module_init.rs`, `loader.rs`
  and `console.rs` hold the operations; `path.rs`, `cstring.rs`, `text.rs` and `registry.rs` what
  they compute with.
  `ledger.rs` proves what becomes of references to engine values, `laws.rs` what holds across
  operations, `path.rs` what holds of module names.
* `tests/` runs the library on concrete values.
* `app/` makes the calls. It is the only place with `unsafe` code. It decides nothing about the
  engine; what it computes itself is the path of a module file, from the loader's directory and the
  module's name.
