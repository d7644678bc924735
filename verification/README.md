# dyn-loader

The verified core of a module loading protocol over the C ABI, and the host
that runs on it.

A module is a dynamic library that hands its host pointers together with the
functions that operate on them. Whoever allocates, deallocates; whoever
creates, operates. The core decides what a host has to do to keep these rules
and Verus proves that it decides so; the host does it.

- `src/` is the core. It follows no pointer and calls no foreign function. A
  load (`ModuleLoad`) names the step that is due: open this path, look this
  symbol up, call this entry. A handle (`AbiRef`, `AbiBoxHandle`, `SafeArcDyn`,
  `NativeModule`) names the call that is due to its module when it is cloned or
  closed, and gives the library out that has to stay loaded until the call has
  been made.
- `app/` is the host: the `#[repr(C)]` layouts, the raw pointers and the foreign
  calls.
- `tests/` runs the core against modules that live in the test process.

Pointers are addresses in the core, except for the memory of a data box, which
the host reads: that is a slice, `Memory`. Paths are kept as the text that
messages show.

The laws, as public proof functions named `law_..`, stand beside what they speak
of: `boundary.rs` on counting and on libraries staying loaded, `abi.rs` on boxes
being freed exactly once, `native.rs` on fat pointers, `loading.rs` on loads,
`helpers.rs` on symbol names.
