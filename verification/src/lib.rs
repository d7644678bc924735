//! The decision core of a language-agnostic module loading protocol over the
//! C ABI.
//!
//! A *module* is a dynamic library that hands its host pointers together with
//! the functions that operate on them. Two rules govern everything that
//! crosses the boundary: whoever allocates, deallocates; whoever creates,
//! operates. This crate decides, and proves, what a host has to do to keep
//! them. It never follows a pointer and never calls a foreign function: a
//! handle answers with the [`BoundaryCall`] that is due, a load answers with
//! the step that is due, and the host carries it out.
//!
//! - [`helpers`]: shared library handles and symbol names.
//! - [`loading`]: the steps from a path and a symbol to an entry point.
//! - [`abi`]: interface tables, single-owner data boxes, counted references.
//! - [`native`]: Rust fat pointers behind the same counted references.
//! - [`boundary`]: the calls that are due to a module, and the laws they obey.
//! - [`error`]: what can go wrong, and how it is told.

pub mod abi;
pub mod boundary;
pub mod error;
pub mod helpers;
pub mod loading;
pub mod native;

pub use abi::{AbiBox, AbiBoxHandle, AbiRef, AbiTable};
pub use boundary::{BoundaryCall, Closing, FreeFn, Memory, ReleaseFn, RetainFn};
pub use error::LoadError;
pub use helpers::{display_symbol, DynLib};
pub use loading::{looks_like_module, EntryKind, ModuleLoad};
pub use native::{
    pack_fat_ptr, unpack_fat_ptr, AbiDynFatPtr, AbiStableDynRef, NativeModule, SafeArcDyn,
};
