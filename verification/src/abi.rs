//! The protocol layer: interface tables, data boxes and counted references,
//! as any language with a C interface can produce them.
//!
//! Three tiers of ownership, under the same two rules:
//!
//! - [`AbiTable`] owns nothing but a copy of a table of functions.
//! - [`AbiRef`] is one of many owners of an object that its module counts.
//! - [`AbiBox`], and [`AbiBoxHandle`] over it, is the one owner of a buffer
//!   that its module frees.
use libloading::Library;
use std::marker::PhantomData;
use std::mem::ManuallyDrop;
use vstd::prelude::*;

use crate::boundary::{BoundaryCall, Closing, FreeFn, Memory, Owner};
use crate::error::{LoadError, LoadFailure};
use crate::helpers::{DynLib, LibView};
use crate::loading::{EntryKind, LoadStage, ModuleLoad};
use crate::native::AbiStableDynRef;

verus! {

/// A loaded library with the table that its getter gave.
pub struct TableView<T> {
    pub lib: LibView,
    pub vtable: T,
}

/// What a table getter that returned `returned` comes to: `None` stands for
/// the null pointer, `Some` for the table pointed to.
pub open spec fn table_outcome<T>(lib: LibView, returned: Option<T>) -> Result<
    TableView<T>,
    LoadFailure,
> {
    match returned {
        Some(vtable) => Ok(TableView { lib, vtable }),
        None => Err(LoadFailure::NullVtable),
    }
}

/// A table of functions, copied out of a library that stays loaded with it.
pub struct AbiTable<T: Copy> {
    _lib: DynLib,
    vtable: T,
}

impl<T: Copy> View for AbiTable<T> {
    type V = TableView<T>;

    closed spec fn view(&self) -> TableView<T> {
        TableView { lib: self._lib@, vtable: self.vtable }
    }
}

impl<T: Copy> AbiTable<T> {
    /// Start loading the table that the getter `symbol` of the library at
    /// `path` gives.
    pub fn load<E: Copy>(path: &str, symbol: &[u8]) -> (res: ModuleLoad<E>)
        ensures
            res@ == LoadStage::<E>::from_path(path@, symbol@, EntryKind::Plain),
    {
        ModuleLoad::open(path, symbol, EntryKind::Plain)
    }

    /// Start loading the table that the getter `symbol` of `lib` gives.
    pub fn from_lib<E: Copy>(lib: DynLib, symbol: &[u8]) -> (res: ModuleLoad<E>)
        ensures
            res@ == LoadStage::<E>::from_lib(lib@, symbol@, EntryKind::Plain),
    {
        ModuleLoad::from_lib(lib, symbol, EntryKind::Plain)
    }

    /// Finish a load whose getter returned `returned`, `None` standing for the
    /// null pointer.
    pub fn entered(lib: DynLib, returned: Option<T>) -> (res: Result<Self, LoadError>)
        ensures
            match table_outcome(lib@, returned) {
                Ok(table) => res matches Ok(made) && made@ == table,
                Err(failure) => res matches Err(error) && error@ == failure,
            },
    {
        match returned {
            Some(vtable) => Ok(AbiTable { _lib: lib, vtable }),
            None => Err(LoadError::NullVtable),
        }
    }

    /// The table.
    pub fn vtable(&self) -> (res: &T)
        ensures
            *res == self@.vtable,
    {
        &self.vtable
    }
}

/// Calls `Vec::into_boxed_slice`.
///
/// Believed of it: the boxed slice holds the bytes that the vector held, in
/// their order.
#[verifier::external_body]
fn exact_fit(bytes: Vec<u8>) -> (res: Box<[u8]>)
    ensures
        res@ == bytes@,
{
    bytes.into_boxed_slice()
}

/// Calls `Box::leak`.
///
/// Believed of it: the slice that the box leaves behind holds the bytes that
/// the box held.
#[verifier::external_body]
fn leak(bytes: Box<[u8]>) -> (res: &'static mut [u8])
    ensures
        res@ == bytes@,
{
    Box::leak(bytes)
}

/// A buffer that one module allocated and the same module frees.
///
/// There is exactly one owner: a box can be moved and not copied. `data` is
/// `None` for the null pointer; otherwise it is the memory that the pointer
/// leads to, whose first `len` bytes are the contents. The host holds that
/// memory only until `free` is called on it.
#[derive(Debug)]
pub struct AbiBox {
    pub data: Option<Memory>,
    pub len: usize,
    pub free: FreeFn,
}

/// The call that frees what a box owns. A null box owns nothing.
pub open spec fn free_call(owned: AbiBox) -> Option<BoundaryCall> {
    match owned.data {
        Some(data) => Some(BoundaryCall::Free { function: owned.free, data, len: owned.len }),
        None => None,
    }
}

impl AbiBox {
    /// Whether the memory holds as many bytes as the box promises.
    pub open spec fn readable(self) -> bool {
        self.data matches Some(data) ==> self.len <= data@.len()
    }

    /// The contents of the box.
    pub open spec fn bytes(self) -> Seq<u8> {
        match self.data {
            Some(data) => data@.take(self.len as int),
            None => seq![],
        }
    }

    /// The box is the exact fit of `bytes` that this module made and frees.
    pub open spec fn made_from(self, bytes: Seq<u8>) -> bool {
        &&& self.data matches Some(data) && data@ == bytes
        &&& self.len == bytes.len()
        &&& self.free == FreeFn::Rust
    }

    /// The box that owns nothing, and whose `free` does nothing.
    pub fn null() -> (res: Self)
        ensures
            res.data is None,
            res.len == 0,
            res.free == FreeFn::Noop,
    {
        AbiBox { data: None, len: 0, free: FreeFn::Noop }
    }

    /// Whether the box owns nothing.
    pub fn is_null(&self) -> (res: bool)
        ensures
            res == (self.data is None),
    {
        self.data.is_none()
    }

    /// Hand `v` over as a box that this module frees. The buffer is cut to its
    /// contents, so that its length is all the freeing function has to know.
    pub fn from_vec(v: Vec<u8>) -> (res: Self)
        ensures
            res.made_from(v@),
    {
        let boxed: Box<[u8]> = exact_fit(v);
        let len: usize = boxed.len();
        AbiBox { data: Some(Memory::new(leak(boxed))), len, free: FreeFn::Rust }
    }

    /// The contents.
    pub fn as_slice(&self) -> (res: &[u8])
        requires
            self.readable(),
        ensures
            res@ == self.bytes(),
    {
        match &self.data {
            Some(data) => {
                let all: &[u8] = data.as_slice();
                &all[0..self.len]
            },
            None => &[],
        }
    }

    /// Hand ownership back to the caller, and say whether there is anything to
    /// own.
    pub fn into_raw(self) -> (res: (Self, bool))
        ensures
            res.0 == self,
            res.1 == (self.data is Some),
    {
        let consumed: bool = !self.is_null();
        (self, consumed)
    }

    /// Give the box up: the call that frees what it owns, if it owns anything.
    pub fn into_free(self) -> (res: Option<BoundaryCall>)
        ensures
            res == free_call(self),
    {
        match self.data {
            Some(data) => Some(BoundaryCall::Free { function: self.free, data, len: self.len }),
            None => None,
        }
    }
}

/// A box with the library whose function frees it.
pub struct BoxView {
    pub lib: LibView,
    pub inner: AbiBox,
}

/// What a box entry that returned `returned` comes to.
pub open spec fn box_outcome(lib: LibView, returned: AbiBox) -> Result<BoxView, LoadFailure> {
    if returned.data is None {
        Err(LoadFailure::NullBox)
    } else {
        Ok(BoxView { lib, inner: returned })
    }
}

/// The host's handle over a box from a module, which keeps the module's
/// library loaded for as long as the box has to be freed by it.
pub struct AbiBoxHandle {
    lib: DynLib,
    inner: AbiBox,
}

impl View for AbiBoxHandle {
    type V = BoxView;

    closed spec fn view(&self) -> BoxView {
        BoxView { lib: self.lib@, inner: self.inner }
    }
}

impl AbiBoxHandle {
    #[verifier::type_invariant]
    spec fn inv(self) -> bool {
        self.inner.readable()
    }

    /// Adopt a box, keeping `lib` loaded.
    pub fn from_box(box_: AbiBox, lib: DynLib) -> (res: Self)
        requires
            box_.readable(),
        ensures
            res@.inner == box_,
            res@.lib == lib@,
    {
        AbiBoxHandle { lib, inner: box_ }
    }

    /// Adopt a box whose library is kept loaded by other means, under a handle
    /// over the current process.
    pub fn from_box_unowned(box_: AbiBox, process: Library) -> (res: Self)
        requires
            box_.readable(),
        ensures
            res@.inner == box_,
            res@.lib == crate::helpers::unowned_lib(process),
    {
        Self::from_box(box_, DynLib::unowned(process))
    }

    /// Start loading the box that the entry `symbol` of the library at `path`
    /// gives.
    pub fn load<E: Copy>(path: &str, symbol: &[u8]) -> (res: ModuleLoad<E>)
        ensures
            res@ == LoadStage::<E>::from_path(path@, symbol@, EntryKind::Plain),
    {
        ModuleLoad::open(path, symbol, EntryKind::Plain)
    }

    /// Start loading the box that the entry `symbol` of `lib` gives.
    pub fn from_lib<E: Copy>(lib: DynLib, symbol: &[u8]) -> (res: ModuleLoad<E>)
        ensures
            res@ == LoadStage::<E>::from_lib(lib@, symbol@, EntryKind::Plain),
    {
        ModuleLoad::from_lib(lib, symbol, EntryKind::Plain)
    }

    /// Finish a load whose entry returned `returned`.
    pub fn entered(lib: DynLib, returned: AbiBox) -> (res: Result<Self, LoadError>)
        requires
            returned.readable(),
        ensures
            match box_outcome(lib@, returned) {
                Ok(handle) => res matches Ok(made) && made@ == handle,
                Err(failure) => res matches Err(error) && error@ == failure,
            },
    {
        if returned.is_null() {
            Err(LoadError::NullBox)
        } else {
            Ok(Self::from_box(returned, lib))
        }
    }

    /// The contents.
    pub fn as_slice(&self) -> (res: &[u8])
        ensures
            res@ == self@.inner.bytes(),
            self@.inner.readable(),
    {
        proof {
            use_type_invariant(self);
        }
        self.inner.as_slice()
    }

    /// The length that the box promises.
    pub fn len(&self) -> (res: usize)
        ensures
            res == self@.inner.len,
            self@.inner.readable(),
    {
        proof {
            use_type_invariant(self);
        }
        self.inner.len
    }

    /// Whether the box promises no bytes.
    pub fn is_empty(&self) -> (res: bool)
        ensures
            res == (self@.inner.len == 0),
            self@.inner.readable(),
    {
        self.len() == 0
    }

    /// The box, for the caller to free. No call is due, and the library is no
    /// longer kept loaded.
    pub fn into_raw(self) -> (res: AbiBox)
        ensures
            res == self@.inner,
            res.readable(),
    {
        proof {
            use_type_invariant(&self);
        }
        self.inner
    }

    /// Close the handle: the call that frees the box, if it owns anything, and
    /// the library that the call runs in.
    pub fn drop(self) -> (res: Closing)
        ensures
            res.call == free_call(self@.inner),
            res.lib@ == self@.lib,
            self@.inner.readable(),
    {
        proof {
            use_type_invariant(&self);
        }
        Closing { call: self.inner.into_free(), lib: self.lib }
    }
}

impl std::ops::Deref for AbiBoxHandle {
    type Target = [u8];

    fn deref(&self) -> (res: &[u8])
        ensures
            res@ == self@.inner.bytes(),
            self@.inner.readable(),
    {
        self.as_slice()
    }
}

/// A box made from bytes gives back those bytes, and what frees it is this
/// module's function, on the memory that holds them and on their number. This
/// holds of no bytes too: the box is not null.
pub proof fn law_from_vec_round_trip(made: AbiBox, bytes: Seq<u8>)
    requires
        made.made_from(bytes),
    ensures
        made.readable(),
        made.data is Some,
        made.bytes() == bytes,
        free_call(made) matches Some(BoundaryCall::Free { function, data, len })
            && function == FreeFn::Rust && data@ == bytes && len == bytes.len(),
{
    assert(made.bytes() =~= bytes);
}

/// The number of bytes that a readable box shows is the length it promises. A
/// null box that promises bytes is left out: it shows none.
pub proof fn law_contents_have_promised_length(owned: AbiBox)
    requires
        owned.readable(),
        owned.data is Some || owned.len == 0,
    ensures
        owned.bytes().len() == owned.len,
{
}

/// A null box shows nothing and has nothing freed.
pub proof fn law_null_box_is_inert(owned: AbiBox)
    requires
        owned.data is None,
    ensures
        owned.bytes() == Seq::<u8>::empty(),
        free_call(owned) is None,
{
}

/// Where a box is.
pub enum BoxPlace {
    /// In the hands of a caller, as it came over the boundary.
    Raw,
    /// In a handle.
    Held,
    /// Given up.
    Gone,
}

/// What can happen to a box.
pub enum BoxOp {
    /// A handle adopts the box.
    Adopt,
    /// The handle gives the box back.
    IntoRaw,
    /// The handle is closed.
    Close,
    /// The caller frees the box.
    Free,
}

/// Where a box is after `ops`.
pub open spec fn place_after(ops: Seq<BoxOp>) -> BoxPlace
    decreases ops.len(),
{
    if ops.len() == 0 {
        BoxPlace::Raw
    } else {
        match ops.last() {
            BoxOp::Adopt => BoxPlace::Held,
            BoxOp::IntoRaw => BoxPlace::Raw,
            BoxOp::Close => BoxPlace::Gone,
            BoxOp::Free => BoxPlace::Gone,
        }
    }
}

/// Each of `ops` happens to the box where the box is: a handle adopts and a
/// caller frees a raw box, a handle gives back or closes the box it holds.
pub open spec fn box_ops_possible(ops: Seq<BoxOp>) -> bool
    decreases ops.len(),
{
    ops.len() == 0 || (box_ops_possible(ops.drop_last()) && match ops.last() {
        BoxOp::Adopt => place_after(ops.drop_last()) is Raw,
        BoxOp::Free => place_after(ops.drop_last()) is Raw,
        BoxOp::IntoRaw => place_after(ops.drop_last()) is Held,
        BoxOp::Close => place_after(ops.drop_last()) is Held,
    })
}

/// The calls that `ops` on the box `owned` ask for.
pub open spec fn box_calls(owned: AbiBox, ops: Seq<BoxOp>) -> Seq<BoundaryCall>
    decreases ops.len(),
{
    if ops.len() == 0 {
        seq![]
    } else {
        let before = box_calls(owned, ops.drop_last());
        match (ops.last(), free_call(owned)) {
            (BoxOp::Close, Some(call)) => before.push(call),
            (BoxOp::Free, Some(call)) => before.push(call),
            _ => before,
        }
    }
}

/// However often a box is adopted and given back, it is freed exactly once:
/// not before it is given up, and then by its own function on its own memory.
/// A null box is never freed.
pub proof fn law_freed_exactly_once(owned: AbiBox, ops: Seq<BoxOp>)
    requires
        box_ops_possible(ops),
    ensures
        box_calls(owned, ops) == match (place_after(ops), free_call(owned)) {
            (BoxPlace::Gone, Some(call)) => seq![call],
            _ => seq![],
        },
    decreases ops.len(),
{
    if ops.len() != 0 {
        law_freed_exactly_once(owned, ops.drop_last());
    }
}

/// A library with the reference that its entry gave.
pub struct RefView {
    pub lib: LibView,
    pub raw: AbiStableDynRef,
}

impl RefView {
    /// The handle as an owner of its reference.
    pub open spec fn owner(self) -> Owner {
        Owner { raw: self.raw, lib: Some(self.lib) }
    }
}

/// What the entry of a counted reference that returned `returned` comes to.
pub open spec fn ref_outcome(lib: LibView, returned: AbiStableDynRef) -> Result<
    RefView,
    LoadFailure,
> {
    if returned.object.null_spec() {
        Err(LoadFailure::NullDynEntry)
    } else {
        Ok(RefView { lib, raw: returned })
    }
}

/// A counted handle to an object of a module, whose functions are in a table
/// of type `T`.
///
/// The table is not copied: the reference holds its address, which is good for
/// as long as the library stays loaded, and the handle keeps it loaded.
pub struct AbiRef<T: Copy> {
    lib: DynLib,
    raw: AbiStableDynRef,
    marker: PhantomData<T>,
}

impl<T: Copy> View for AbiRef<T> {
    type V = RefView;

    closed spec fn view(&self) -> RefView {
        RefView { lib: self.lib@, raw: self.raw }
    }
}

impl<T: Copy> AbiRef<T> {
    /// Start loading the object that the entry `dyn_entry` of the library at
    /// `path` gives.
    pub fn load<E: Copy>(path: &str, dyn_entry: &[u8]) -> (res: ModuleLoad<E>)
        ensures
            res@ == LoadStage::<E>::from_path(path@, dyn_entry@, EntryKind::DynEntry),
    {
        ModuleLoad::open(path, dyn_entry, EntryKind::DynEntry)
    }

    /// Start loading the object that the entry `dyn_entry` of `lib` gives.
    pub fn from_lib<E: Copy>(lib: DynLib, dyn_entry: &[u8]) -> (res: ModuleLoad<E>)
        ensures
            res@ == LoadStage::<E>::from_lib(lib@, dyn_entry@, EntryKind::DynEntry),
    {
        ModuleLoad::from_lib(lib, dyn_entry, EntryKind::DynEntry)
    }

    /// Finish a load whose entry returned `returned`.
    pub fn entered(lib: DynLib, returned: AbiStableDynRef) -> (res: Result<Self, LoadError>)
        ensures
            match ref_outcome(lib@, returned) {
                Ok(handle) => res matches Ok(made) && made@ == handle,
                Err(failure) => res matches Err(error) && error@ == failure,
            },
    {
        if returned.is_null() {
            Err(LoadError::NullDynEntry)
        } else {
            Ok(AbiRef { lib, raw: returned, marker: PhantomData })
        }
    }

    /// Take over a reference obtained elsewhere, whose library is kept loaded
    /// by other means, under a handle over the current process. No call is
    /// due.
    pub fn from_raw(raw: AbiStableDynRef, process: Library) -> (res: Self)
        ensures
            res@.raw == raw,
            res@.lib == crate::helpers::unowned_lib(process),
            res@.owner() == crate::boundary::adopted(
                raw,
                Some(crate::helpers::unowned_lib(process)),
            ),
    {
        AbiRef { lib: DynLib::unowned(process), raw, marker: PhantomData }
    }

    /// The address of the object: the first argument of every function in its
    /// table.
    pub fn ctx(&self) -> (res: usize)
        ensures
            res == self@.raw.object.data,
    {
        self.raw.object.data
    }

    /// The address of the object's table.
    pub fn vtable(&self) -> (res: usize)
        ensures
            res == self@.raw.object.vtable,
    {
        self.raw.object.vtable
    }

    /// The reference, to be shown over the boundary.
    pub fn as_raw(&self) -> (res: &AbiStableDynRef)
        ensures
            *res == self@.raw,
    {
        &self.raw
    }

    /// Hand the reference back. No call is due: the receiver takes the
    /// reference over. The library that the handle kept loaded comes along and
    /// stays loaded, unless the receiver takes it out of its wrapping.
    pub fn into_raw(self) -> (res: (AbiStableDynRef, ManuallyDrop<DynLib>))
        ensures
            res.0 == self@.raw,
            res.1@@ == self@.lib,
    {
        (self.raw, ManuallyDrop::new(self.lib))
    }

    /// Another handle to the same object, which keeps the library loaded too,
    /// and the call that takes the reference for it.
    pub fn clone(&self) -> (res: (Self, BoundaryCall))
        ensures
            res.0@ == self@,
            res.1 == crate::boundary::retain_call(self@.raw),
            (res.0@.owner(), res.1) == crate::boundary::cloned(self@.owner()),
    {
        (
            AbiRef { lib: self.lib.clone(), raw: self.raw, marker: PhantomData },
            BoundaryCall::Retain { function: self.raw.retain, object: self.raw.object },
        )
    }

    /// Close the handle: the call that gives its reference back, and the
    /// library that the call runs in.
    pub fn drop(self) -> (res: Closing)
        ensures
            res.call == Some(crate::boundary::release_call(self@.raw)),
            res.lib@ == self@.lib,
    {
        Closing {
            call: Some(
                BoundaryCall::Release { function: self.raw.release, object: self.raw.object },
            ),
            lib: self.lib,
        }
    }
}

/// A load never hands out a handle to nothing: a null table, box or reference
/// is refused, and nothing else is.
pub proof fn law_loads_refuse_exactly_null<T>(
    lib: LibView,
    table: Option<T>,
    owned: AbiBox,
    raw: AbiStableDynRef,
)
    ensures
        table_outcome(lib, table) is Err <==> table is None,
        box_outcome(lib, owned) is Err <==> owned.data is None,
        ref_outcome(lib, raw) is Err <==> raw.object.null_spec(),
        crate::native::native_outcome(lib, raw) is Err <==> raw.object.null_spec(),
{
}

/// The load of a table asks for its path to be opened and then, as the load
/// from a library at once, for exactly the bytes of its symbol, as a plain symbol.
pub proof fn law_table_load_asks_for_its_symbol<T: Copy, E: Copy>(
    path: &str,
    symbol: &[u8],
    library: Library,
    lib: DynLib,
    by_path: ModuleLoad<E>,
    opened: ModuleLoad<E>,
    by_lib: ModuleLoad<E>,
)
    requires
        call_ensures(AbiTable::<T>::load::<E>, (path, symbol), by_path),
        call_ensures(
            ModuleLoad::<E>::opened,
            (by_path, Ok::<Library, libloading::Error>(library)),
            opened,
        ),
        call_ensures(AbiTable::<T>::from_lib::<E>, (lib, symbol), by_lib),
    ensures
        by_path matches ModuleLoad::Open { path: asked, .. } && asked@ == path@,
        opened matches ModuleLoad::Resolve { lib: held, symbol: asked, kind } && held@.library
            == library && held@.path == path@ && asked@ == symbol@ && kind == EntryKind::Plain,
        by_lib matches ModuleLoad::Resolve { lib: held, symbol: asked, kind } && held@.library
            == lib@.library && held@.path == lib@.path && asked@ == symbol@ && kind
            == EntryKind::Plain,
{
}

/// A table is loaded exactly where the getter gave one, and it is the table
/// that the getter gave.
pub proof fn law_table_is_what_the_getter_gave<T: Copy>(
    lib: DynLib,
    returned: Option<T>,
    made: Result<AbiTable<T>, LoadError>,
)
    requires
        call_ensures(AbiTable::<T>::entered, (lib, returned), made),
    ensures
        match returned {
            Some(vtable) => made matches Ok(table) && table@.lib.library == lib@.library
                && table@.lib.path == lib@.path && (forall|given: &T|
                call_ensures(AbiTable::<T>::vtable, (&table,), given) ==> *given == vtable),
            None => made matches Err(LoadError::NullVtable),
        },
{
}

/// The load of a box asks for its path to be opened and then, as the load
/// from a library at once, for exactly the bytes of its symbol, as a plain symbol.
pub proof fn law_box_load_asks_for_its_symbol<E: Copy>(
    path: &str,
    symbol: &[u8],
    library: Library,
    lib: DynLib,
    by_path: ModuleLoad<E>,
    opened: ModuleLoad<E>,
    by_lib: ModuleLoad<E>,
)
    requires
        call_ensures(AbiBoxHandle::load::<E>, (path, symbol), by_path),
        call_ensures(
            ModuleLoad::<E>::opened,
            (by_path, Ok::<Library, libloading::Error>(library)),
            opened,
        ),
        call_ensures(AbiBoxHandle::from_lib::<E>, (lib, symbol), by_lib),
    ensures
        by_path matches ModuleLoad::Open { path: asked, .. } && asked@ == path@,
        opened matches ModuleLoad::Resolve { lib: held, symbol: asked, kind } && held@.library
            == library && held@.path == path@ && asked@ == symbol@ && kind == EntryKind::Plain,
        by_lib matches ModuleLoad::Resolve { lib: held, symbol: asked, kind } && held@.library
            == lib@.library && held@.path == lib@.path && asked@ == symbol@ && kind
            == EntryKind::Plain,
{
}

/// A box can be read, adopted and loaded wherever it is null or its memory
/// holds as many bytes as it promises, and nowhere else.
pub proof fn law_box_is_usable_where_its_bytes_are_there(
    owned: AbiBox,
    lib: DynLib,
    process: Library,
)
    ensures
        owned.readable() <==> owned.data is None || owned.len <= owned.data->0@.len(),
        owned.data is None || owned.len <= owned.data->0@.len() ==> {
            &&& call_requires(AbiBox::as_slice, (&owned,))
            &&& call_requires(AbiBoxHandle::from_box, (owned, lib))
            &&& call_requires(AbiBoxHandle::from_box_unowned, (owned, process))
            &&& call_requires(AbiBoxHandle::entered, (lib, owned))
        },
{
}

/// A box shows the bytes at the start of its memory, as many as it promises,
/// and a null box shows none. It says that there is something to own exactly
/// where it is not null, and goes back to its owner as it is.
pub proof fn law_box_shows_its_own_bytes(
    owned: AbiBox,
    shown: &[u8],
    null: bool,
    back: (AbiBox, bool),
)
    requires
        owned.data is None || owned.len <= owned.data->0@.len(),
        call_ensures(AbiBox::as_slice, (&owned,), shown),
        call_ensures(AbiBox::is_null, (&owned,), null),
        call_ensures(AbiBox::into_raw, (owned,), back),
    ensures
        owned.data matches Some(memory) ==> shown@.len() == owned.len && (forall|i: int|
            0 <= i < owned.len ==> shown@[i] == memory@[i]),
        owned.data is None ==> shown@.len() == 0,
        null <==> owned.data is None,
        back.0.data == owned.data,
        back.0.len == owned.len,
        back.0.free == owned.free,
        back.1 == !null,
{
}

/// A box is freed by its own function, on its own memory and its own length,
/// and a null box is not freed.
pub proof fn law_box_is_freed_by_its_own_function(owned: AbiBox, freed: Option<BoundaryCall>)
    requires
        call_ensures(AbiBox::into_free, (owned,), freed),
    ensures
        match owned.data {
            Some(memory) => freed matches Some(BoundaryCall::Free { function, data, len })
                && function == owned.free && data == memory && len == owned.len,
            None => freed is None,
        },
{
}

/// A box made from a vector holds the vector's bytes, all of them and nothing
/// else, and is freed by this module.
pub proof fn law_box_holds_the_vector(v: Vec<u8>, made: AbiBox)
    requires
        call_ensures(AbiBox::from_vec, (v,), made),
    ensures
        made.data matches Some(memory) && memory@ == v@,
        made.len == v@.len(),
        made.free == FreeFn::Rust,
{
}

/// A handle shows the bytes of the box that it adopted and the length that the
/// box promises, gives the box back as it was, and has it freed by the function
/// that came with it, on the memory and the length that came with it, while the
/// library is held. This holds of a box under any library and of one under the
/// current process alike.
pub proof fn law_handle_keeps_its_box(
    owned: AbiBox,
    lib: DynLib,
    process: Library,
    handle: AbiBoxHandle,
    shown: &[u8],
    seen: &[u8],
    len: usize,
    empty: bool,
    back: AbiBox,
    closing: Closing,
)
    requires
        owned.data is None || owned.len <= owned.data->0@.len(),
        ({
            ||| call_ensures(AbiBoxHandle::from_box, (owned, lib), handle)
            ||| call_ensures(AbiBoxHandle::from_box_unowned, (owned, process), handle)
                && call_ensures(DynLib::unowned, (process,), lib)
            ||| call_ensures(
                AbiBoxHandle::entered,
                (lib, owned),
                Ok::<AbiBoxHandle, LoadError>(handle),
            )
        }),
        call_ensures(AbiBoxHandle::as_slice, (&handle,), shown),
        call_ensures(<AbiBoxHandle as std::ops::Deref>::deref, (&handle,), seen),
        call_ensures(AbiBoxHandle::len, (&handle,), len),
        call_ensures(AbiBoxHandle::is_empty, (&handle,), empty),
        call_ensures(AbiBoxHandle::into_raw, (handle,), back),
        call_ensures(AbiBoxHandle::drop, (handle,), closing),
    ensures
        owned.data matches Some(memory) ==> shown@.len() == owned.len && (forall|i: int|
            0 <= i < owned.len ==> shown@[i] == memory@[i]),
        owned.data is None ==> shown@.len() == 0,
        seen@ == shown@,
        len == owned.len,
        empty <==> owned.len == 0,
        back.data == owned.data,
        back.len == owned.len,
        back.free == owned.free,
        match owned.data {
            Some(memory) => closing.call matches Some(
                BoundaryCall::Free { function, data, len: all },
            ) && function == owned.free && data == memory && all == owned.len,
            None => closing.call is None,
        },
        closing.lib@.library == lib@.library,
        closing.lib@.path == lib@.path,
{
}

/// A box is loaded exactly where its entry returned one that is not null;
/// otherwise the load says that the entry returned null. The box loaded is the
/// one returned: its memory, its length and its freeing function, under the
/// library it came from.
pub proof fn law_box_loads_as_returned(
    lib: DynLib,
    returned: AbiBox,
    made: Result<AbiBoxHandle, LoadError>,
)
    requires
        call_ensures(AbiBoxHandle::entered, (lib, returned), made),
    ensures
        returned.data is Some ==> (made matches Ok(handle) && handle@.inner.data == returned.data
            && handle@.inner.len == returned.len && handle@.inner.free == returned.free
            && handle@.lib.library == lib@.library && handle@.lib.path == lib@.path),
        returned.data is None ==> made matches Err(LoadError::NullBox),
{
}

/// The load of a counted reference asks for its path to be opened and then, as the load
/// from a library at once, for exactly the bytes of its symbol, as an entry of such.
pub proof fn law_reference_load_asks_for_its_symbol<T: Copy, E: Copy>(
    path: &str,
    symbol: &[u8],
    library: Library,
    lib: DynLib,
    by_path: ModuleLoad<E>,
    opened: ModuleLoad<E>,
    by_lib: ModuleLoad<E>,
)
    requires
        call_ensures(AbiRef::<T>::load::<E>, (path, symbol), by_path),
        call_ensures(
            ModuleLoad::<E>::opened,
            (by_path, Ok::<Library, libloading::Error>(library)),
            opened,
        ),
        call_ensures(AbiRef::<T>::from_lib::<E>, (lib, symbol), by_lib),
    ensures
        by_path matches ModuleLoad::Open { path: asked, .. } && asked@ == path@,
        opened matches ModuleLoad::Resolve { lib: held, symbol: asked, kind } && held@.library
            == library && held@.path == path@ && asked@ == symbol@ && kind == EntryKind::DynEntry,
        by_lib matches ModuleLoad::Resolve { lib: held, symbol: asked, kind } && held@.library
            == lib@.library && held@.path == lib@.path && asked@ == symbol@ && kind
            == EntryKind::DynEntry,
{
}

/// A reference is loaded exactly where its entry returned no null address;
/// otherwise the load says that the entry returned null. The reference loaded
/// is the one returned: its object and its two functions, under the library it
/// came from.
pub proof fn law_reference_loads_as_returned<T: Copy>(
    lib: DynLib,
    returned: AbiStableDynRef,
    made: Result<AbiRef<T>, LoadError>,
)
    requires
        call_ensures(AbiRef::<T>::entered, (lib, returned), made),
    ensures
        returned.object.data != 0 && returned.object.vtable != 0 ==> (made matches Ok(handle)
            && handle@.raw.object.data == returned.object.data && handle@.raw.object.vtable
            == returned.object.vtable && handle@.raw.retain == returned.retain
            && handle@.raw.release == returned.release && handle@.lib.library == lib@.library
            && handle@.lib.path == lib@.path),
        returned.object.data == 0 || returned.object.vtable == 0 ==> made matches Err(
            LoadError::NullDynEntry,
        ),
{
}

/// A counted handle leads to the instance and to the table of its reference,
/// and shows and gives back the reference as it came. Cloning it asks for the
/// reference's own retaining function and closing it for its own releasing
/// function, on the reference's own object, while the library is held; and its
/// clone is as it is. This holds of a handle that was loaded and of one over a
/// reference obtained elsewhere alike.
pub proof fn law_counted_handle_keeps_its_reference<T: Copy>(
    raw: AbiStableDynRef,
    lib: DynLib,
    process: Library,
    handle: AbiRef<T>,
    ctx: usize,
    vtable: usize,
    shown: &AbiStableDynRef,
    twin: AbiRef<T>,
    retain: BoundaryCall,
    twin_ctx: usize,
    twin_vtable: usize,
    twin_closing: Closing,
    closing: Closing,
    back: (AbiStableDynRef, ManuallyDrop<DynLib>),
)
    requires
        ({
            ||| call_ensures(AbiRef::<T>::entered, (lib, raw), Ok::<AbiRef<T>, LoadError>(handle))
            ||| call_ensures(AbiRef::<T>::from_raw, (raw, process), handle) && call_ensures(
                DynLib::unowned,
                (process,),
                lib,
            )
        }),
        call_ensures(AbiRef::<T>::ctx, (&handle,), ctx),
        call_ensures(AbiRef::<T>::vtable, (&handle,), vtable),
        call_ensures(AbiRef::<T>::as_raw, (&handle,), shown),
        call_ensures(AbiRef::<T>::clone, (&handle,), (twin, retain)),
        call_ensures(AbiRef::<T>::ctx, (&twin,), twin_ctx),
        call_ensures(AbiRef::<T>::vtable, (&twin,), twin_vtable),
        call_ensures(AbiRef::<T>::drop, (twin,), twin_closing),
        call_ensures(AbiRef::<T>::drop, (handle,), closing),
        call_ensures(AbiRef::<T>::into_raw, (handle,), back),
    ensures
        ctx == raw.object.data,
        vtable == raw.object.vtable,
        *shown == raw,
        retain matches BoundaryCall::Retain { function, object } && function == raw.retain
            && object.data == raw.object.data && object.vtable == raw.object.vtable,
        closing.call matches Some(BoundaryCall::Release { function, object }) && function
            == raw.release && object.data == raw.object.data && object.vtable
            == raw.object.vtable,
        closing.lib@.library == lib@.library,
        closing.lib@.path == lib@.path,
        twin_ctx == ctx,
        twin_vtable == vtable,
        twin_closing.call == closing.call,
        twin_closing.lib@ == lib@,
        back.0 == raw,
        back.1@@ == lib@,
{
}

/// Cloning a handle raises the count that the reference's own functions keep
/// by one, and closing the clone lowers it by one, whatever the count was.
/// Calls of other functions, or on other objects, would not have moved it.
pub proof fn law_own_functions_count_clones<T: Copy>(
    raw: AbiStableDynRef,
    process: Library,
    handle: AbiRef<T>,
    twin: AbiRef<T>,
    retain: BoundaryCall,
    closing: Closing,
    start: int,
)
    requires
        call_ensures(AbiRef::<T>::from_raw, (raw, process), handle),
        call_ensures(AbiRef::<T>::clone, (&handle,), (twin, retain)),
        call_ensures(AbiRef::<T>::drop, (twin,), closing),
    ensures
        crate::boundary::own_count_after(start, seq![retain], raw) == start + 1,
        closing.call matches Some(release) && crate::boundary::own_count_after(
            start,
            seq![retain, release],
            raw,
        ) == start,
{
    let release = closing.call->0;
    assert(seq![retain].drop_last() =~= seq![]);
    assert(seq![retain, release].drop_last() =~= seq![retain]);
    reveal_with_fuel(crate::boundary::own_count_after, 3);
}

} // verus!
