//! Counted references: what handles ask of the module that owns the object.
use dyn_loader::{
    AbiDynFatPtr, AbiRef, AbiStableDynRef, BoundaryCall, DynLib, LoadError, ReleaseFn, RetainFn,
};
use libloading::Library;

const INSTANCE: u64 = 0xdead_beef;
const INSTANCE_ADDRESS: usize = 0x1000;
const VTABLE_ADDRESS: usize = 0x2000;
const TEST_RETAIN: usize = 0x3000;
const TEST_RELEASE: usize = 0x3008;

#[derive(Clone, Copy)]
struct TestVtable {
    get_value: fn(usize) -> u64,
}

fn test_get_value(ctx: usize) -> u64 {
    assert_eq!(ctx, INSTANCE_ADDRESS);
    INSTANCE
}

/// A module in this process: one instance, its table, its count.
struct Module {
    refcount: u32,
}

impl Module {
    fn perform(&mut self, call: BoundaryCall) {
        match call {
            BoundaryCall::Retain { function, object } => {
                assert_eq!(function, RetainFn::Module(TEST_RETAIN));
                assert_eq!(object.data, INSTANCE_ADDRESS);
                self.refcount += 1;
            }
            BoundaryCall::Release { function, object } => {
                assert_eq!(function, ReleaseFn::Module(TEST_RELEASE));
                assert_eq!(object.data, INSTANCE_ADDRESS);
                assert!(self.refcount > 0, "release called more times than retain");
                self.refcount -= 1;
            }
            BoundaryCall::Free { .. } => panic!("nothing to free"),
        }
    }

    fn table_at(&self, address: usize) -> TestVtable {
        assert_eq!(address, VTABLE_ADDRESS);
        TestVtable { get_value: test_get_value }
    }
}

fn test_ref() -> AbiStableDynRef {
    AbiStableDynRef {
        object: AbiDynFatPtr { data: INSTANCE_ADDRESS, vtable: VTABLE_ADDRESS },
        retain: RetainFn::Module(TEST_RETAIN),
        release: ReleaseFn::Module(TEST_RELEASE),
    }
}

fn process() -> Library {
    libloading::os::unix::Library::this().into()
}

fn this_process(path: &str) -> DynLib {
    DynLib::from_library(process(), path.to_string())
}

#[test]
fn cdyn_handle_retain_release_roundtrip() {
    let mut module = Module { refcount: 1 };

    let h1 = AbiRef::<TestVtable>::from_raw(test_ref(), process());
    assert_eq!(module.refcount, 1);

    let (h2, retain) = h1.clone();
    module.perform(retain);
    assert_eq!(module.refcount, 2);

    let vt = module.table_at(h1.vtable());
    assert_eq!((vt.get_value)(h1.ctx()), INSTANCE);
    assert_eq!(h1.as_raw().object.vtable, h2.as_raw().object.vtable);

    module.perform(h2.drop().call.unwrap());
    assert_eq!(module.refcount, 1);
    module.perform(h1.drop().call.unwrap());
    assert_eq!(module.refcount, 0);
}

#[test]
fn cdyn_handle_into_raw_skips_release() {
    let mut module = Module { refcount: 1 };
    let h = AbiRef::<TestVtable>::from_raw(test_ref(), process());
    let (raw2, _kept) = h.into_raw();
    assert_eq!(raw2.object, test_ref().object);
    assert_eq!(raw2.release, ReleaseFn::Module(TEST_RELEASE));
    assert_eq!(module.refcount, 1);
    module.refcount -= 1;
    assert_eq!(module.refcount, 0);
}

#[test]
fn any_number_of_clones_balances() {
    let mut module = Module { refcount: 1 };
    let first = AbiRef::<TestVtable>::from_raw(test_ref(), process());
    let mut handles = Vec::new();
    for _ in 0..5 {
        let (next, retain) = first.clone();
        module.perform(retain);
        handles.push(next);
    }
    assert_eq!(module.refcount, 6);
    let (raw, _kept) = handles.pop().unwrap().into_raw();
    for handle in handles {
        module.perform(handle.drop().call.unwrap());
    }
    module.perform(first.drop().call.unwrap());
    // The reference that was handed back raw is still out.
    assert_eq!(module.refcount, 1);
    module.perform(AbiRef::<TestVtable>::from_raw(raw, process()).drop().call.unwrap());
    assert_eq!(module.refcount, 0);
}

#[test]
fn calls_name_the_functions_that_came_with_the_object() {
    let handle = AbiRef::<TestVtable>::from_raw(test_ref(), process());
    let (twin, retain) = handle.clone();
    match retain {
        BoundaryCall::Retain { function, object } => {
            assert_eq!(function, RetainFn::Module(0x3000));
            assert_eq!(object, AbiDynFatPtr { data: 0x1000, vtable: 0x2000 });
        }
        _ => panic!("a clone retains"),
    }
    match twin.drop().call {
        Some(BoundaryCall::Release { function, object }) => {
            assert_eq!(function, ReleaseFn::Module(0x3008));
            assert_eq!(object, AbiDynFatPtr { data: 0x1000, vtable: 0x2000 });
        }
        _ => panic!("a close releases"),
    }
}

#[test]
fn handles_and_their_remains_keep_the_library() {
    let lib = this_process("libobject.so");
    let handle = match AbiRef::<TestVtable>::entered(lib, test_ref()) {
        Ok(handle) => handle,
        Err(_) => panic!("the reference is not null"),
    };
    let (twin, _) = handle.clone();
    assert_eq!(twin.drop().lib.path(), "libobject.so");
    let (_, kept) = handle.into_raw();
    assert_eq!(kept.path(), "libobject.so");
}

#[test]
fn a_reference_from_elsewhere_owns_no_library() {
    let handle = AbiRef::<TestVtable>::from_raw(test_ref(), process());
    assert_eq!(handle.drop().lib.path(), "<unowned>");
}

#[test]
fn null_references() {
    let null = AbiStableDynRef::null();
    assert!(null.is_null());
    assert!(AbiDynFatPtr::null().is_null());
    assert_eq!(null.retain, RetainFn::Noop);
    assert_eq!(null.release, ReleaseFn::Noop);
    assert!(AbiDynFatPtr { data: 0, vtable: 1 }.is_null());
    assert!(AbiDynFatPtr { data: 1, vtable: 0 }.is_null());
    assert!(!AbiDynFatPtr { data: 1, vtable: 1 }.is_null());
    assert!(!test_ref().is_null());

    let refused = AbiRef::<TestVtable>::entered(this_process("x"), null);
    assert!(matches!(refused, Err(LoadError::NullDynEntry)));
}
