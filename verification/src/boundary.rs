//! The calls that a host owes to the modules it has loaded.
//!
//! Memory and counts belong to the module that created them, so a handle never
//! frees or counts anything itself. It names the call that is due: which
//! function of the module, on which pointer. The laws at the end say what the
//! calls of any number of handles over one object add up to.
use vstd::prelude::*;

use crate::helpers::{DynLib, LibView};
use crate::native::{AbiDynFatPtr, AbiStableDynRef};

verus! {

/// The function that takes one more reference to an object.
#[derive(Debug, Clone, Copy, PartialEq, Eq, Structural)]
pub enum RetainFn {
    /// Does nothing. It goes with the null reference.
    Noop,
    /// Raises the strong count of the `Arc` that the object is in.
    Arc,
    /// A function of a module, by its address.
    Module(usize),
}

/// The function that gives one reference to an object back.
#[derive(Debug, Clone, Copy, PartialEq, Eq, Structural)]
pub enum ReleaseFn {
    /// Does nothing. It goes with the null reference.
    Noop,
    /// Lowers the strong count of the `Arc` that the object is in.
    Arc,
    /// A function of a module, by its address.
    Module(usize),
}

/// The function that frees the memory of a box.
#[derive(Debug, Clone, Copy, PartialEq, Eq, Structural)]
pub enum FreeFn {
    /// Does nothing. It goes with the null box.
    Noop,
    /// Frees an exact-fit boxed slice with the allocator of this module.
    Rust,
    /// A function of a module, by its address.
    Module(usize),
}

/// The memory that a pointer from a module leads to, held by its one owner.
///
/// The host may read it until the module's freeing function is called on it.
#[derive(Debug)]
pub struct Memory {
    bytes: &'static mut [u8],
}

impl View for Memory {
    type V = Seq<u8>;

    closed spec fn view(&self) -> Seq<u8> {
        self.bytes@
    }
}

impl Memory {
    /// The memory itself, as against what it holds.
    pub closed spec fn held(self) -> &'static mut [u8] {
        self.bytes
    }

    /// Take hold of `bytes`: of that memory and not of a copy, so that what
    /// becomes of the one becomes of the other.
    pub fn new(bytes: &'static mut [u8]) -> (res: Self)
        ensures
            res@ == old(bytes)@,
            final(res.held())@ == final(bytes)@,
    {
        Memory { bytes }
    }

    /// The bytes.
    pub fn as_slice(&self) -> (res: &[u8])
        ensures
            res@ == self@,
    {
        &*self.bytes
    }

    /// Let go of the memory that was held, for the call that frees it.
    pub fn into_bytes(self) -> (res: &'static mut [u8])
        ensures
            res@ == self@,
            final(res)@ == final(self.held())@,
    {
        self.bytes
    }
}

/// A call that is due to a module, with everything it is due on.
#[derive(Debug)]
#[allow(inconsistent_fields)]
pub enum BoundaryCall {
    /// `function(object)`: one more reference.
    Retain { function: RetainFn, object: AbiDynFatPtr },
    /// `function(object)`: one reference less.
    Release { function: ReleaseFn, object: AbiDynFatPtr },
    /// `function(data, len)`: the memory goes back to where it came from.
    Free { function: FreeFn, data: Memory, len: usize },
}

/// What is left of a handle that was closed: the call that is due, and the
/// library that has to stay loaded until the call has been made.
pub struct Closing {
    pub call: Option<BoundaryCall>,
    pub lib: DynLib,
}

/// The call by which a handle over `raw` takes one more reference.
pub open spec fn retain_call(raw: AbiStableDynRef) -> BoundaryCall {
    BoundaryCall::Retain { function: raw.retain, object: raw.object }
}

/// The call by which a handle over `raw` gives its reference back.
pub open spec fn release_call(raw: AbiStableDynRef) -> BoundaryCall {
    BoundaryCall::Release { function: raw.release, object: raw.object }
}

/// What `call` does to the number of references to `object`, where the
/// functions of the module count as their names say.
pub open spec fn count_change(call: BoundaryCall, object: AbiDynFatPtr) -> int {
    match call {
        BoundaryCall::Retain { object: on, .. } => if on == object {
            1
        } else {
            0
        },
        BoundaryCall::Release { object: on, .. } => if on == object {
            -1
        } else {
            0
        },
        BoundaryCall::Free { .. } => 0,
    }
}

/// The number of references to `object` after `calls`, where there were
/// `start` before.
pub open spec fn count_after(start: int, calls: Seq<BoundaryCall>, object: AbiDynFatPtr) -> int
    decreases calls.len(),
{
    if calls.len() == 0 {
        start
    } else {
        count_after(start, calls.drop_last(), object) + count_change(calls.last(), object)
    }
}

/// One reference to an object, and the library that its owner keeps loaded
/// with it, if any.
pub struct Owner {
    pub raw: AbiStableDynRef,
    pub lib: Option<LibView>,
}

/// The owner of a reference that keeps no library.
pub open spec fn bare(raw: AbiStableDynRef) -> Owner {
    Owner { raw, lib: None }
}

/// The clone of `owner`, and the call that takes the reference for it.
pub open spec fn cloned(owner: Owner) -> (Owner, BoundaryCall) {
    (owner, retain_call(owner.raw))
}

/// The handle taken from `owner` that keeps no library, and the call that
/// takes the reference for it.
pub open spec fn shared(owner: Owner) -> (Owner, BoundaryCall) {
    (bare(owner.raw), retain_call(owner.raw))
}

/// The handle that takes over the reference `raw`, keeping `lib` loaded with
/// it, if any. No call is due.
pub open spec fn adopted(raw: AbiStableDynRef, lib: Option<LibView>) -> Owner {
    Owner { raw, lib }
}

/// What can happen to the handle at a place among those alive, or to the
/// reference at a place among those handed back raw.
pub enum OwnerOp {
    /// The handle is cloned, library and all: `clone`.
    Clone(int),
    /// A handle is taken from it that keeps no library: `clone_handle`.
    Share(int),
    /// The handle is closed: `drop`.
    Drop(int),
    /// The handle is turned back into the raw reference: `into_raw` and
    /// `into_abi`.
    IntoRaw(int),
    /// The raw reference is taken over by a handle that keeps this library or
    /// none: `from_raw`, under the library of the current process, and
    /// `from_abi`, under none.
    Adopt(int, Option<LibView>),
}

/// Everything that became of a number of handles.
pub struct Ledger {
    /// The handles alive.
    pub live: Seq<Owner>,
    /// The references handed back raw.
    pub handed: Seq<Owner>,
    /// The calls asked for, in their order.
    pub calls: Seq<BoundaryCall>,
}

impl OwnerOp {
    /// The place of what it happens to.
    pub open spec fn place(self) -> int {
        match self {
            OwnerOp::Clone(i) => i,
            OwnerOp::Share(i) => i,
            OwnerOp::Drop(i) => i,
            OwnerOp::IntoRaw(i) => i,
            OwnerOp::Adopt(i, _) => i,
        }
    }
}

impl Ledger {
    /// The ledger at the start, with a reference for each of `owners`.
    pub open spec fn of(owners: Seq<Owner>) -> Ledger {
        Ledger { live: owners, handed: seq![], calls: seq![] }
    }

    /// There is something at that place for `op` to happen to.
    pub open spec fn allows(self, op: OwnerOp) -> bool {
        0 <= op.place() < if op is Adopt {
            self.handed.len()
        } else {
            self.live.len()
        }
    }

    /// The ledger after `op`.
    pub open spec fn after(self, op: OwnerOp) -> Ledger {
        let owner = self.live[op.place()];
        match op {
            OwnerOp::Clone(_) => Ledger {
                live: self.live.push(cloned(owner).0),
                handed: self.handed,
                calls: self.calls.push(cloned(owner).1),
            },
            OwnerOp::Share(_) => Ledger {
                live: self.live.push(shared(owner).0),
                handed: self.handed,
                calls: self.calls.push(shared(owner).1),
            },
            OwnerOp::Drop(i) => Ledger {
                live: self.live.remove(i),
                handed: self.handed,
                calls: self.calls.push(release_call(owner.raw)),
            },
            OwnerOp::IntoRaw(i) => Ledger {
                live: self.live.remove(i),
                handed: self.handed.push(owner),
                calls: self.calls,
            },
            OwnerOp::Adopt(i, lib) => Ledger {
                live: self.live.push(adopted(self.handed[i].raw, lib)),
                handed: self.handed.remove(i),
                calls: self.calls,
            },
        }
    }
}

/// The ledger after `ops`, started with a reference for each of `owners`.
pub open spec fn ledger(owners: Seq<Owner>, ops: Seq<OwnerOp>) -> Ledger
    decreases ops.len(),
{
    if ops.len() == 0 {
        Ledger::of(owners)
    } else {
        ledger(owners, ops.drop_last()).after(ops.last())
    }
}

/// Each of `ops` happens to something that is there at that point.
pub open spec fn possible(owners: Seq<Owner>, ops: Seq<OwnerOp>) -> bool
    decreases ops.len(),
{
    ops.len() == 0 || (possible(owners, ops.drop_last()) && ledger(
        owners,
        ops.drop_last(),
    ).allows(ops.last()))
}

/// How many of `owners` own a reference to `object`.
pub open spec fn owners_of(owners: Seq<Owner>, object: AbiDynFatPtr) -> int
    decreases owners.len(),
{
    if owners.len() == 0 {
        0
    } else {
        owners_of(owners.drop_last(), object) + if owners.last().raw.object == object {
            1int
        } else {
            0int
        }
    }
}

/// In `ops`, started with `owners`, the raw reference of `owner` is taken over
/// by a handle that keeps the library of `owner`.
pub open spec fn taken_over(owner: Owner, owners: Seq<Owner>, ops: Seq<OwnerOp>) -> bool {
    exists|j: int|
        0 <= j < ops.len() && (#[trigger] ops[j] matches OwnerOp::Adopt(i, lib) && owner == adopted(
            ledger(owners, ops.take(j)).handed[i].raw,
            lib,
        ))
}

/// `owner` owns a reference to an object that one of `owners` had: with the
/// functions that came with it, and with the same library, with none, or with
/// the one that the reference was taken over under in `ops`.
pub open spec fn descends(owner: Owner, owners: Seq<Owner>, ops: Seq<OwnerOp>) -> bool {
    exists|i: int|
        0 <= i < owners.len() && (#[trigger] owners[i]).raw == owner.raw && (owner.lib
            == owners[i].lib || owner.lib is None || taken_over(owner, owners, ops))
}

/// `call` is to one of the two functions of a reference that one of `owners`
/// had, on the object it came with.
pub open spec fn own_call(call: BoundaryCall, owners: Seq<Owner>) -> bool {
    exists|i: int|
        0 <= i < owners.len() && match call {
            BoundaryCall::Retain { function, object } => function == (
            #[trigger] owners[i]).raw.retain && object == owners[i].raw.object,
            BoundaryCall::Release { function, object } => function == owners[i].raw.release
                && object == owners[i].raw.object,
            BoundaryCall::Free { .. } => false,
        }
}

/// What `call` does to the number of references to the object of `raw` that
/// the functions of `raw` keep. Only they move it, and only on that object.
pub open spec fn own_count_change(call: BoundaryCall, raw: AbiStableDynRef) -> int {
    match call {
        BoundaryCall::Retain { function, object } => if function == raw.retain && object
            == raw.object {
            1
        } else {
            0
        },
        BoundaryCall::Release { function, object } => if function == raw.release && object
            == raw.object {
            -1
        } else {
            0
        },
        BoundaryCall::Free { .. } => 0,
    }
}

/// The number of references to the object of `raw` that the functions of `raw`
/// keep after `calls`, where it was `start` before.
pub open spec fn own_count_after(
    start: int,
    calls: Seq<BoundaryCall>,
    raw: AbiStableDynRef,
) -> int
    decreases calls.len(),
{
    if calls.len() == 0 {
        start
    } else {
        own_count_after(start, calls.drop_last(), raw) + own_count_change(calls.last(), raw)
    }
}

proof fn lemma_owners_push(owners: Seq<Owner>, owner: Owner, object: AbiDynFatPtr)
    ensures
        owners_of(owners.push(owner), object) == owners_of(owners, object) + if owner.raw.object
            == object {
            1int
        } else {
            0int
        },
{
    assert(owners.push(owner).drop_last() =~= owners);
}

proof fn lemma_owners_remove(owners: Seq<Owner>, i: int, object: AbiDynFatPtr)
    requires
        0 <= i < owners.len(),
    ensures
        owners_of(owners.remove(i), object) == owners_of(owners, object) - if owners[i].raw.object
            == object {
            1int
        } else {
            0int
        },
    decreases owners.len(),
{
    if i == owners.len() - 1 {
        assert(owners.remove(i) =~= owners.drop_last());
    } else {
        assert(owners.remove(i).drop_last() =~= owners.drop_last().remove(i));
        lemma_owners_remove(owners.drop_last(), i, object);
    }
}

proof fn lemma_owners_nonnegative(owners: Seq<Owner>, object: AbiDynFatPtr)
    ensures
        owners_of(owners, object) >= 0,
    decreases owners.len(),
{
    if owners.len() != 0 {
        lemma_owners_nonnegative(owners.drop_last(), object);
    }
}

proof fn lemma_count_push(
    start: int,
    calls: Seq<BoundaryCall>,
    call: BoundaryCall,
    object: AbiDynFatPtr,
)
    ensures
        count_after(start, calls.push(call), object) == count_after(start, calls, object)
            + count_change(call, object),
{
    assert(calls.push(call).drop_last() =~= calls);
}

/// Whatever happens to any number of handles, a module that makes the calls
/// asked for counts, for every object, as many references as there are handles
/// alive over it and references to it handed back raw.
pub proof fn law_counts_match_owners(
    owners: Seq<Owner>,
    ops: Seq<OwnerOp>,
    object: AbiDynFatPtr,
)
    requires
        possible(owners, ops),
    ensures
        count_after(owners_of(owners, object), ledger(owners, ops).calls, object) == owners_of(
            ledger(owners, ops).live,
            object,
        ) + owners_of(ledger(owners, ops).handed, object),
    decreases ops.len(),
{
    if ops.len() != 0 {
        let before = ledger(owners, ops.drop_last());
        let op = ops.last();
        let owner = before.live[op.place()];
        let start = owners_of(owners, object);
        law_counts_match_owners(owners, ops.drop_last(), object);
        lemma_count_push(start, before.calls, retain_call(owner.raw), object);
        lemma_count_push(start, before.calls, release_call(owner.raw), object);
        lemma_owners_push(before.live, owner, object);
        lemma_owners_push(before.live, bare(owner.raw), object);
        lemma_owners_push(before.handed, owner, object);
        if let OwnerOp::Adopt(i, lib) = op {
            lemma_owners_push(before.live, adopted(before.handed[i].raw, lib), object);
            lemma_owners_remove(before.handed, i, object);
        } else {
            lemma_owners_remove(before.live, op.place(), object);
        }
    }
}

/// Once every handle is closed and none was handed back raw, every reference
/// has been given back: no object is counted any more.
pub proof fn law_all_closed_releases_all(
    owners: Seq<Owner>,
    ops: Seq<OwnerOp>,
    object: AbiDynFatPtr,
)
    requires
        possible(owners, ops),
        ledger(owners, ops).live.len() == 0,
        ledger(owners, ops).handed.len() == 0,
    ensures
        count_after(owners_of(owners, object), ledger(owners, ops).calls, object) == 0,
{
    law_counts_match_owners(owners, ops, object);
}

/// No reference is given back that was not taken: as long as a handle is
/// alive, the module counts at least one reference to its object, so the call
/// that closing it asks for finds one.
pub proof fn law_never_over_released(owners: Seq<Owner>, ops: Seq<OwnerOp>, i: int)
    requires
        possible(owners, ops),
        0 <= i < ledger(owners, ops).live.len(),
    ensures
        count_after(
            owners_of(owners, ledger(owners, ops).live[i].raw.object),
            ledger(owners, ops).calls,
            ledger(owners, ops).live[i].raw.object,
        ) >= 1,
{
    let now = ledger(owners, ops);
    let object = now.live[i].raw.object;
    law_counts_match_owners(owners, ops, object);
    lemma_owners_remove(now.live, i, object);
    lemma_owners_nonnegative(now.live.remove(i), object);
    lemma_owners_nonnegative(now.handed, object);
}

/// Cloning a handle and closing the clone leaves every count as it was.
pub proof fn law_clone_then_drop_is_neutral(
    start: int,
    calls: Seq<BoundaryCall>,
    raw: AbiStableDynRef,
    object: AbiDynFatPtr,
)
    ensures
        count_after(start, calls.push(retain_call(raw)).push(release_call(raw)), object)
            == count_after(start, calls, object),
{
    lemma_count_push(start, calls, retain_call(raw), object);
    lemma_count_push(start, calls.push(retain_call(raw)), release_call(raw), object);
}

/// Whoever allocates, deallocates, and whoever creates, operates: every call
/// asked for is to a function that came with an object, on that object.
pub proof fn law_calls_are_the_modules_own(owners: Seq<Owner>, ops: Seq<OwnerOp>)
    requires
        possible(owners, ops),
    ensures
        forall|i: int|
            0 <= i < ledger(owners, ops).calls.len() ==> own_call(
                #[trigger] ledger(owners, ops).calls[i],
                owners,
            ),
    decreases ops.len(),
{
    if ops.len() != 0 {
        let before = ledger(owners, ops.drop_last());
        let now = ledger(owners, ops);
        law_calls_are_the_modules_own(owners, ops.drop_last());
        law_owners_descend(owners, ops.drop_last());
        assert forall|i: int| 0 <= i < now.calls.len() implies own_call(
            #[trigger] now.calls[i],
            owners,
        ) by {
            if i < before.calls.len() {
                assert(now.calls[i] == before.calls[i]);
            } else {
                let owner = before.live[ops.last().place()];
                assert(descends(owner, owners, ops.drop_last()));
                let from = choose|k: int|
                    0 <= k < owners.len() && (#[trigger] owners[k]).raw == owner.raw;
                assert(owners[from].raw == owner.raw);
            }
        }
    }
}

/// What descends before the last of `ops` descends after it too, and so does
/// its reference under no library or under the one it is then taken over under.
proof fn lemma_descends_further(
    owner: Owner,
    owners: Seq<Owner>,
    ops: Seq<OwnerOp>,
    lib: Option<LibView>,
)
    requires
        ops.len() != 0,
        descends(owner, owners, ops.drop_last()),
    ensures
        descends(owner, owners, ops),
        lib is None || taken_over(adopted(owner.raw, lib), owners, ops) ==> descends(
            adopted(owner.raw, lib),
            owners,
            ops,
        ),
{
    let before = ops.drop_last();
    let from = choose|k: int|
        0 <= k < owners.len() && (#[trigger] owners[k]).raw == owner.raw && (owner.lib
            == owners[k].lib || owner.lib is None || taken_over(owner, owners, before));
    assert(owners[from].raw == owner.raw);
    if taken_over(owner, owners, before) {
        let j = choose|j: int|
            0 <= j < before.len() && (#[trigger] before[j] matches OwnerOp::Adopt(i, under)
                && owner == adopted(ledger(owners, before.take(j)).handed[i].raw, under));
        assert(ops[j] == before[j]);
        assert(ops.take(j) =~= before.take(j));
    }
}

/// Every handle alive and every reference handed back raw goes back to one of
/// the references that there were at the start: to the same object, counted by
/// the same functions, under the same library, under none, or under the one
/// that the raw reference was taken over under.
pub proof fn law_owners_descend(owners: Seq<Owner>, ops: Seq<OwnerOp>)
    requires
        possible(owners, ops),
    ensures
        forall|i: int|
            0 <= i < ledger(owners, ops).live.len() ==> descends(
                #[trigger] ledger(owners, ops).live[i],
                owners,
                ops,
            ),
        forall|i: int|
            0 <= i < ledger(owners, ops).handed.len() ==> descends(
                #[trigger] ledger(owners, ops).handed[i],
                owners,
                ops,
            ),
    decreases ops.len(),
{
    let now = ledger(owners, ops);
    if ops.len() == 0 {
        assert forall|i: int| 0 <= i < now.live.len() implies descends(
            #[trigger] now.live[i],
            owners,
            ops,
        ) by {
            assert(owners[i].raw == now.live[i].raw);
        }
    } else {
        let before = ledger(owners, ops.drop_last());
        let place = ops.last().place();
        law_owners_descend(owners, ops.drop_last());
        assert forall|i: int| 0 <= i < now.live.len() implies descends(
            #[trigger] now.live[i],
            owners,
            ops,
        ) by {
            match ops.last() {
                OwnerOp::Clone(_) | OwnerOp::Share(_) => {
                    let from = if i < before.live.len() {
                        i
                    } else {
                        place
                    };
                    lemma_descends_further(before.live[from], owners, ops, None);
                },
                OwnerOp::Adopt(_, lib) => {
                    if i < before.live.len() {
                        lemma_descends_further(before.live[i], owners, ops, None);
                    } else {
                        assert(ops[ops.len() - 1] == OwnerOp::Adopt(place, lib));
                        assert(ops.take(ops.len() - 1) =~= ops.drop_last());
                        lemma_descends_further(before.handed[place], owners, ops, lib);
                    }
                },
                _ => {
                    let from = if i < place {
                        i
                    } else {
                        i + 1
                    };
                    lemma_descends_further(before.live[from], owners, ops, None);
                },
            }
        }
        assert forall|i: int| 0 <= i < now.handed.len() implies descends(
            #[trigger] now.handed[i],
            owners,
            ops,
        ) by {
            match ops.last() {
                OwnerOp::IntoRaw(_) => {
                    if i < before.handed.len() {
                        lemma_descends_further(before.handed[i], owners, ops, None);
                    } else {
                        lemma_descends_further(before.live[place], owners, ops, None);
                    }
                },
                OwnerOp::Adopt(_, _) => {
                    let from = if i < place {
                        i
                    } else {
                        i + 1
                    };
                    lemma_descends_further(before.handed[from], owners, ops, None);
                },
                _ => {
                    lemma_descends_further(before.handed[i], owners, ops, None);
                },
            }
        }
    }
}

/// The library of an object stays loaded for as long as a handle over the
/// object is alive, and for a reference handed back raw: where no handle was
/// made that keeps another library or none, every owner there is has the very
/// library and object of an owner there was at the start.
pub proof fn law_library_outlives_handles(owners: Seq<Owner>, ops: Seq<OwnerOp>)
    requires
        possible(owners, ops),
        forall|i: int|
            0 <= i < ops.len() ==> !(#[trigger] ops[i] is Share) && !(ops[i] is Adopt),
    ensures
        forall|i: int|
            0 <= i < ledger(owners, ops).live.len() ==> owners.contains(
                #[trigger] ledger(owners, ops).live[i],
            ),
        forall|i: int|
            0 <= i < ledger(owners, ops).handed.len() ==> owners.contains(
                #[trigger] ledger(owners, ops).handed[i],
            ),
    decreases ops.len(),
{
    let now = ledger(owners, ops);
    if ops.len() != 0 {
        let before = ledger(owners, ops.drop_last());
        let place = ops.last().place();
        assert forall|i: int| 0 <= i < ops.drop_last().len() implies !(
        #[trigger] ops.drop_last()[i] is Share) && !(ops.drop_last()[i] is Adopt) by {
            assert(ops.drop_last()[i] == ops[i]);
        }
        assert(!(ops[ops.len() - 1] is Share));
        law_library_outlives_handles(owners, ops.drop_last());
        assert(owners.contains(before.live[place]));
        assert forall|i: int| 0 <= i < now.live.len() implies owners.contains(
            #[trigger] now.live[i],
        ) by {
            match ops.last() {
                OwnerOp::Clone(_) => {
                    assert(now.live[i] == before.live[if i < before.live.len() {
                        i
                    } else {
                        place
                    }]);
                },
                _ => {
                    assert(now.live[i] == before.live[if i < place {
                        i
                    } else {
                        i + 1
                    }]);
                },
            }
        }
        assert forall|i: int| 0 <= i < now.handed.len() implies owners.contains(
            #[trigger] now.handed[i],
        ) by {
            if i < before.handed.len() {
                assert(now.handed[i] == before.handed[i]);
            } else {
                assert(now.handed[i] == before.live[place]);
            }
        }
    }
}

proof fn lemma_own_count_is_count(start: int, calls: Seq<BoundaryCall>, raw: AbiStableDynRef)
    requires
        forall|i: int|
            0 <= i < calls.len() ==> own_count_change(#[trigger] calls[i], raw) == count_change(
                calls[i],
                raw.object,
            ),
    ensures
        own_count_after(start, calls, raw) == count_after(start, calls, raw.object),
    decreases calls.len(),
{
    if calls.len() != 0 {
        assert forall|i: int| 0 <= i < calls.drop_last().len() implies own_count_change(
            #[trigger] calls.drop_last()[i],
            raw,
        ) == count_change(calls.drop_last()[i], raw.object) by {
            assert(calls.drop_last()[i] == calls[i]);
        }
        lemma_own_count_is_count(start, calls.drop_last(), raw);
        assert(calls.last() == calls[calls.len() - 1]);
    }
}

/// Whatever happens to any number of handles, the functions that came with an
/// object count as many references to it as there are handles alive over it
/// and references to it handed back raw, though only calls of those very
/// functions on that very object move their count. Every reference to the
/// object comes with the same two functions.
pub proof fn law_own_functions_count_owners(
    owners: Seq<Owner>,
    ops: Seq<OwnerOp>,
    raw: AbiStableDynRef,
)
    requires
        possible(owners, ops),
        forall|i: int|
            0 <= i < owners.len() && (#[trigger] owners[i]).raw.object == raw.object
                ==> owners[i].raw == raw,
    ensures
        own_count_after(owners_of(owners, raw.object), ledger(owners, ops).calls, raw)
            == owners_of(ledger(owners, ops).live, raw.object) + owners_of(
            ledger(owners, ops).handed,
            raw.object,
        ),
{
    let calls = ledger(owners, ops).calls;
    law_calls_are_the_modules_own(owners, ops);
    assert forall|i: int| 0 <= i < calls.len() implies own_count_change(#[trigger] calls[i], raw)
        == count_change(calls[i], raw.object) by {
        assert(own_call(calls[i], owners));
    }
    lemma_own_count_is_count(owners_of(owners, raw.object), calls, raw);
    law_counts_match_owners(owners, ops, raw.object);
}

} // verus!
