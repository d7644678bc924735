//! The Rust layer: trait objects handed over as fat pointers, under the same
//! counted references as foreign objects.
//!
//! Host and module have to be built by the same compiler, since the meaning of
//! a fat pointer's second word is the compiler's own.
use libloading::Library;
use std::marker::PhantomData;
use vstd::prelude::*;

use crate::boundary::{BoundaryCall, Closing, Owner, ReleaseFn, RetainFn};
use crate::error::{LoadError, LoadFailure};
use crate::helpers::{DynLib, LibView};
use crate::loading::{EntryKind, LoadStage, ModuleLoad};

verus! {

/// A fat pointer: the address of the object and the address of its vtable.
/// Zero is the null address.
#[derive(Debug, Clone, Copy, PartialEq, Eq, Structural)]
pub struct AbiDynFatPtr {
    pub data: usize,
    pub vtable: usize,
}

impl AbiDynFatPtr {
    /// Whether one of the two addresses is null.
    pub open spec fn null_spec(self) -> bool {
        self.data == 0 || self.vtable == 0
    }

    /// The pointer with both addresses null.
    pub fn null() -> (res: Self)
        ensures
            res.data == 0,
            res.vtable == 0,
    {
        AbiDynFatPtr { data: 0, vtable: 0 }
    }

    /// Whether one of the two addresses is null.
    pub fn is_null(self) -> (res: bool)
        ensures
            res == self.null_spec(),
            res == (self.data == 0 || self.vtable == 0),
    {
        self.data == 0 || self.vtable == 0
    }
}

/// A reference to an object of a module, with the functions that count it.
#[derive(Debug, Clone, Copy)]
pub struct AbiStableDynRef {
    pub object: AbiDynFatPtr,
    pub retain: RetainFn,
    pub release: ReleaseFn,
}

impl AbiStableDynRef {
    /// The reference to nothing, which counts nothing.
    pub fn null() -> (res: Self)
        ensures
            res.object.data == 0,
            res.object.vtable == 0,
            res.retain == RetainFn::Noop,
            res.release == ReleaseFn::Noop,
    {
        AbiStableDynRef {
            object: AbiDynFatPtr::null(),
            retain: RetainFn::Noop,
            release: ReleaseFn::Noop,
        }
    }

    /// Whether the reference is to nothing.
    pub fn is_null(self) -> (res: bool)
        ensures
            res == self.object.null_spec(),
            res == (self.object.data == 0 || self.object.vtable == 0),
    {
        self.object.is_null()
    }
}

/// The fat pointer whose two words are `words`: the object's address first,
/// the vtable's second.
pub open spec fn packed(words: Seq<usize>) -> AbiDynFatPtr {
    AbiDynFatPtr { data: words[0], vtable: words[1] }
}

/// The two words of a fat pointer, in order.
pub open spec fn unpacked(ptr: AbiDynFatPtr) -> Seq<usize> {
    seq![ptr.data, ptr.vtable]
}

/// Pack the two words of a fat pointer.
pub fn pack_fat_ptr(words: [usize; 2]) -> (res: AbiDynFatPtr)
    ensures
        res == packed(words@),
{
    AbiDynFatPtr { data: words[0], vtable: words[1] }
}

/// The two words of a packed fat pointer.
pub fn unpack_fat_ptr(ptr: AbiDynFatPtr) -> (res: [usize; 2])
    ensures
        res@ == unpacked(ptr),
{
    [ptr.data, ptr.vtable]
}

/// Unpacking gives back the words that were packed.
pub proof fn law_unpack_undoes_pack(words: Seq<usize>)
    requires
        words.len() == 2,
    ensures
        unpacked(packed(words)) == words,
{
    assert(unpacked(packed(words)) =~= words);
}

/// Packing gives back the pointer that was unpacked.
pub proof fn law_pack_undoes_unpack(ptr: AbiDynFatPtr)
    ensures
        packed(unpacked(ptr)) == ptr,
{
}

/// A counted handle to a trait object `T`.
///
/// Cloning and closing a handle is answered with the call that is due to the
/// module that the object belongs to.
pub struct SafeArcDyn<T: ?Sized> {
    raw: AbiStableDynRef,
    marker: PhantomData<T>,
}

/// The reference to an object in an `Arc`, given by the words of the pointer
/// to it.
pub open spec fn arc_ref(words: Seq<usize>) -> AbiStableDynRef {
    AbiStableDynRef { object: packed(words), retain: RetainFn::Arc, release: ReleaseFn::Arc }
}

impl<T: ?Sized> View for SafeArcDyn<T> {
    type V = AbiStableDynRef;

    closed spec fn view(&self) -> AbiStableDynRef {
        self.raw
    }
}

impl<T: ?Sized> SafeArcDyn<T> {
    /// Take over the reference that an `Arc` gave up when it was turned into
    /// the raw pointer with these two words.
    pub fn from_arc(words: [usize; 2]) -> (res: Self)
        ensures
            res@ == arc_ref(words@),
    {
        SafeArcDyn {
            raw: AbiStableDynRef {
                object: pack_fat_ptr(words),
                retain: RetainFn::Arc,
                release: ReleaseFn::Arc,
            },
            marker: PhantomData,
        }
    }

    /// The reference, to be handed over the boundary. No call is due: the
    /// receiver takes the reference over.
    pub fn into_abi(self) -> (res: AbiStableDynRef)
        ensures
            res == self@,
    {
        self.raw
    }

    /// Take over a reference that came over the boundary. No call is due.
    pub fn from_abi(raw: AbiStableDynRef) -> (res: Self)
        ensures
            res@ == raw,
            crate::boundary::bare(res@) == crate::boundary::adopted(raw, None),
    {
        SafeArcDyn { raw, marker: PhantomData }
    }

    /// The two words of the pointer to the object.
    pub fn trait_ref(&self) -> (res: [usize; 2])
        ensures
            res@ == unpacked(self@.object),
    {
        unpack_fat_ptr(self.raw.object)
    }

    /// Another handle to the same object, and the call that takes the
    /// reference for it.
    pub fn clone(&self) -> (res: (Self, BoundaryCall))
        ensures
            res.0@ == self@,
            res.1 == crate::boundary::retain_call(self@),
            (crate::boundary::bare(res.0@), res.1) == crate::boundary::cloned(
                crate::boundary::bare(self@),
            ),
    {
        (
            SafeArcDyn { raw: self.raw, marker: PhantomData },
            BoundaryCall::Retain { function: self.raw.retain, object: self.raw.object },
        )
    }

    /// Close the handle: the call that gives its reference back.
    pub fn drop(self) -> (res: BoundaryCall)
        ensures
            res == crate::boundary::release_call(self@),
    {
        BoundaryCall::Release { function: self.raw.release, object: self.raw.object }
    }
}

/// The object behind a handle made from an `Arc`, exported and taken over
/// again is the object that the `Arc` held: the same two words.
pub proof fn law_arc_round_trip(words: Seq<usize>)
    requires
        words.len() == 2,
    ensures
        unpacked(arc_ref(words).object) == words,
{
    law_unpack_undoes_pack(words);
}

/// A loaded module with the object that its entry point gave.
pub struct ModuleView {
    pub lib: LibView,
    pub raw: AbiStableDynRef,
}

impl ModuleView {
    /// The module as an owner of the reference to its object.
    pub open spec fn owner(self) -> Owner {
        Owner { raw: self.raw, lib: Some(self.lib) }
    }
}

/// What a native module's entry point that returned `returned` comes to.
pub open spec fn native_outcome(lib: LibView, returned: AbiStableDynRef) -> Result<
    ModuleView,
    LoadFailure,
> {
    if returned.object.null_spec() {
        Err(LoadFailure::NullEntryPoint)
    } else {
        Ok(ModuleView { lib, raw: returned })
    }
}

/// A module that gives a trait object `T`, and the library it lives in.
pub struct NativeModule<T: ?Sized> {
    lib: DynLib,
    plugin: SafeArcDyn<T>,
}

impl<T: ?Sized> View for NativeModule<T> {
    type V = ModuleView;

    closed spec fn view(&self) -> ModuleView {
        ModuleView { lib: self.lib@, raw: self.plugin@ }
    }
}

impl<T: ?Sized> NativeModule<T> {
    #[verifier::type_invariant]
    spec fn inv(self) -> bool {
        !self.plugin@.object.null_spec()
    }

    /// Start loading the module at `path` whose entry point is `entry_symbol`.
    pub fn load<E: Copy>(path: &str, entry_symbol: &[u8]) -> (res: ModuleLoad<E>)
        ensures
            res@ == LoadStage::<E>::from_path(path@, entry_symbol@, EntryKind::EntryPoint),
    {
        ModuleLoad::open(path, entry_symbol, EntryKind::EntryPoint)
    }

    /// Start loading the module in `lib` whose entry point is `entry_symbol`.
    pub fn from_lib<E: Copy>(lib: DynLib, entry_symbol: &[u8]) -> (res: ModuleLoad<E>)
        ensures
            res@ == LoadStage::<E>::from_lib(lib@, entry_symbol@, EntryKind::EntryPoint),
    {
        ModuleLoad::from_lib(lib, entry_symbol, EntryKind::EntryPoint)
    }

    /// Finish a load whose entry point returned `returned`.
    pub fn entered(lib: DynLib, returned: AbiStableDynRef) -> (res: Result<Self, LoadError>)
        ensures
            match native_outcome(lib@, returned) {
                Ok(module) => res matches Ok(made) && made@ == module,
                Err(failure) => res matches Err(error) && error@ == failure,
            },
    {
        if returned.is_null() {
            Err(LoadError::NullEntryPoint)
        } else {
            Ok(NativeModule { lib, plugin: SafeArcDyn::from_abi(returned) })
        }
    }

    /// The two words of the pointer to the object. Neither is null.
    pub fn trait_ref(&self) -> (res: [usize; 2])
        ensures
            res@ == unpacked(self@.raw.object),
            !packed(res@).null_spec(),
            res@[0] != 0,
            res@[1] != 0,
    {
        proof {
            use_type_invariant(self);
        }
        self.plugin.trait_ref()
    }

    /// Another handle to the object, and the call that takes the reference for
    /// it. The handle does not keep the library loaded.
    pub fn clone_handle(&self) -> (res: (SafeArcDyn<T>, BoundaryCall))
        ensures
            res.0@ == self@.raw,
            res.1 == crate::boundary::retain_call(self@.raw),
            (crate::boundary::bare(res.0@), res.1) == crate::boundary::shared(self@.owner()),
    {
        self.plugin.clone()
    }

    /// Close the module: the call that gives the object back, and the library
    /// that the call runs in.
    pub fn drop(self) -> (res: Closing)
        ensures
            res.call == Some(crate::boundary::release_call(self@.raw)),
            res.lib@ == self@.lib,
    {
        Closing { call: Some(self.plugin.drop()), lib: self.lib }
    }
}

/// Packing keeps the order of the words: the first is the address of the
/// object, the second that of its vtable.
pub proof fn law_pack_keeps_order(words: [usize; 2], ptr: AbiDynFatPtr)
    requires
        call_ensures(pack_fat_ptr, (words,), ptr),
    ensures
        ptr.data == words@[0],
        ptr.vtable == words@[1],
{
}

/// Unpacking keeps the order of the words: the address of the object first,
/// then that of its vtable.
pub proof fn law_unpack_keeps_order(ptr: AbiDynFatPtr, words: [usize; 2])
    requires
        call_ensures(unpack_fat_ptr, (ptr,), words),
    ensures
        words@[0] == ptr.data,
        words@[1] == ptr.vtable,
{
}

/// A pointer, and a reference through it, is null exactly where one of its two
/// addresses is zero.
pub proof fn law_null_is_a_zero_address(raw: AbiStableDynRef, pointer: bool, reference: bool)
    requires
        call_ensures(AbiDynFatPtr::is_null, (raw.object,), pointer),
        call_ensures(AbiStableDynRef::is_null, (raw,), reference),
    ensures
        pointer <==> raw.object.data == 0 || raw.object.vtable == 0,
        reference == pointer,
{
}

/// A handle made from an `Arc` shows the two words of the `Arc`'s pointer in
/// their order, and exports them to be counted as the `Arc` counts.
pub proof fn law_arc_handle<T: ?Sized>(
    words: [usize; 2],
    handle: SafeArcDyn<T>,
    shown: [usize; 2],
    exported: AbiStableDynRef,
)
    requires
        call_ensures(SafeArcDyn::<T>::from_arc, (words,), handle),
        call_ensures(SafeArcDyn::<T>::trait_ref, (&handle,), shown),
        call_ensures(SafeArcDyn::<T>::into_abi, (handle,), exported),
    ensures
        shown@ == words@,
        exported.object.data == words@[0],
        exported.object.vtable == words@[1],
        exported.retain == RetainFn::Arc,
        exported.release == ReleaseFn::Arc,
{
    assert(shown@ =~= words@);
}

/// A handle over a reference that came over the boundary leads to the object
/// that came, asks for the functions that came with it, on that object, and
/// gives the reference back as it came. So does its clone.
pub proof fn law_handle_keeps_its_reference<T: ?Sized>(
    raw: AbiStableDynRef,
    handle: SafeArcDyn<T>,
    shown: [usize; 2],
    twin: SafeArcDyn<T>,
    retain: BoundaryCall,
    release: BoundaryCall,
    twin_shown: [usize; 2],
    twin_release: BoundaryCall,
    exported: AbiStableDynRef,
)
    requires
        call_ensures(SafeArcDyn::<T>::from_abi, (raw,), handle),
        call_ensures(SafeArcDyn::<T>::trait_ref, (&handle,), shown),
        call_ensures(SafeArcDyn::<T>::clone, (&handle,), (twin, retain)),
        call_ensures(SafeArcDyn::<T>::drop, (handle,), release),
        call_ensures(SafeArcDyn::<T>::trait_ref, (&twin,), twin_shown),
        call_ensures(SafeArcDyn::<T>::drop, (twin,), twin_release),
        call_ensures(SafeArcDyn::<T>::into_abi, (handle,), exported),
    ensures
        shown@[0] == raw.object.data,
        shown@[1] == raw.object.vtable,
        retain matches BoundaryCall::Retain { function, object } && function == raw.retain
            && object.data == raw.object.data && object.vtable == raw.object.vtable,
        release matches BoundaryCall::Release { function, object } && function == raw.release
            && object.data == raw.object.data && object.vtable == raw.object.vtable,
        twin_shown@ == shown@,
        twin_release == release,
        exported.object.data == raw.object.data,
        exported.object.vtable == raw.object.vtable,
        exported.retain == raw.retain,
        exported.release == raw.release,
{
}

/// A module is loaded exactly where its entry point returned no null address;
/// otherwise the load says that the entry point returned null.
pub proof fn law_module_loads_unless_null<T: ?Sized>(
    lib: DynLib,
    returned: AbiStableDynRef,
    made: Result<NativeModule<T>, LoadError>,
)
    requires
        call_ensures(NativeModule::<T>::entered, (lib, returned), made),
    ensures
        returned.object.data != 0 && returned.object.vtable != 0 ==> made is Ok,
        returned.object.data == 0 || returned.object.vtable == 0 ==> made matches Err(
            LoadError::NullEntryPoint,
        ),
{
}

/// A loaded module keeps everything that its entry point returned: it leads to
/// the object returned, and taking and giving references back is asked of the
/// functions returned, on that object, while the library it came from is held.
pub proof fn law_module_keeps_what_was_returned<T: ?Sized>(
    lib: DynLib,
    returned: AbiStableDynRef,
    module: NativeModule<T>,
    shown: [usize; 2],
    handle: SafeArcDyn<T>,
    retain: BoundaryCall,
    handle_shown: [usize; 2],
    handle_release: BoundaryCall,
    handle_exported: AbiStableDynRef,
    closing: Closing,
)
    requires
        call_ensures(
            NativeModule::<T>::entered,
            (lib, returned),
            Ok::<NativeModule<T>, LoadError>(module),
        ),
        call_ensures(NativeModule::<T>::trait_ref, (&module,), shown),
        call_ensures(NativeModule::<T>::clone_handle, (&module,), (handle, retain)),
        call_ensures(SafeArcDyn::<T>::trait_ref, (&handle,), handle_shown),
        call_ensures(SafeArcDyn::<T>::drop, (handle,), handle_release),
        call_ensures(SafeArcDyn::<T>::into_abi, (handle,), handle_exported),
        call_ensures(NativeModule::<T>::drop, (module,), closing),
    ensures
        shown@[0] == returned.object.data,
        shown@[1] == returned.object.vtable,
        retain matches BoundaryCall::Retain { function, object } && function == returned.retain
            && object.data == returned.object.data && object.vtable == returned.object.vtable,
        handle_shown@ == shown@,
        handle_release matches BoundaryCall::Release { function, object } && function
            == returned.release && object.data == returned.object.data && object.vtable
            == returned.object.vtable,
        handle_exported == returned,
        closing.call == Some(handle_release),
        closing.lib@.library == lib@.library,
        closing.lib@.path == lib@.path,
{
}

/// The load of a module asks for its path to be opened and then, as the load
/// from a library at once, for exactly the bytes of its symbol, as an entry point.
pub proof fn law_module_load_asks_for_its_symbol<T: ?Sized, E: Copy>(
    path: &str,
    symbol: &[u8],
    library: Library,
    lib: DynLib,
    by_path: ModuleLoad<E>,
    opened: ModuleLoad<E>,
    by_lib: ModuleLoad<E>,
)
    requires
        call_ensures(NativeModule::<T>::load::<E>, (path, symbol), by_path),
        call_ensures(
            ModuleLoad::<E>::opened,
            (by_path, Ok::<Library, libloading::Error>(library)),
            opened,
        ),
        call_ensures(NativeModule::<T>::from_lib::<E>, (lib, symbol), by_lib),
    ensures
        by_path matches ModuleLoad::Open { path: asked, .. } && asked@ == path@,
        opened matches ModuleLoad::Resolve { lib: held, symbol: asked, kind } && held@.library
            == library && held@.path == path@ && asked@ == symbol@ && kind == EntryKind::EntryPoint,
        by_lib matches ModuleLoad::Resolve { lib: held, symbol: asked, kind } && held@.library
            == lib@.library && held@.path == lib@.path && asked@ == symbol@ && kind
            == EntryKind::EntryPoint,
{
}

} // verus!
