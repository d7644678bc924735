//! Trait objects behind fat pointers.
use std::sync::Arc;

use dyn_loader::{
    pack_fat_ptr, unpack_fat_ptr, AbiDynFatPtr, AbiStableDynRef, BoundaryCall, DynLib, LoadError,
    NativeModule, ReleaseFn, RetainFn, SafeArcDyn,
};

trait Demo: Send + Sync {
    fn value(&self) -> i32;
}

struct DemoValue(i32);

impl Demo for DemoValue {
    fn value(&self) -> i32 {
        self.0
    }
}

const DEMO_VTABLE: usize = 0x2000;

/// The objects of a module, found again by the words of the pointers to them.
struct Objects {
    arcs: Vec<(usize, Vec<Arc<dyn Demo>>)>,
}

impl Objects {
    fn new() -> Self {
        Objects { arcs: Vec::new() }
    }

    /// Gives the `Arc` up for the words of a pointer to what it held.
    fn into_words(&mut self, value: Arc<dyn Demo>) -> [usize; 2] {
        let data = 0x1000 + self.arcs.len();
        self.arcs.push((data, vec![value]));
        [data, DEMO_VTABLE]
    }

    fn owners(&mut self, words: [usize; 2]) -> &mut Vec<Arc<dyn Demo>> {
        assert_eq!(words[1], DEMO_VTABLE);
        &mut self.arcs.iter_mut().find(|entry| entry.0 == words[0]).unwrap().1
    }

    fn at(&mut self, words: [usize; 2]) -> Arc<dyn Demo> {
        self.owners(words)[0].clone()
    }

    fn perform(&mut self, call: BoundaryCall) {
        match call {
            BoundaryCall::Retain { function, object } => {
                assert_eq!(function, RetainFn::Arc);
                let another = self.at(unpack_fat_ptr(object));
                self.owners(unpack_fat_ptr(object)).push(another);
            }
            BoundaryCall::Release { function, object } => {
                assert_eq!(function, ReleaseFn::Arc);
                self.owners(unpack_fat_ptr(object)).pop().unwrap();
            }
            BoundaryCall::Free { .. } => panic!("an object is counted and not freed"),
        }
    }
}

fn this_process(path: &str) -> DynLib {
    DynLib::from_library(libloading::os::unix::Library::this().into(), path.to_string())
}

#[test]
fn safe_arc_dyn_round_trip() {
    let mut objects = Objects::new();
    let arc: Arc<dyn Demo> = Arc::new(DemoValue(42));
    let wrapped = SafeArcDyn::<dyn Demo>::from_arc(objects.into_words(arc));
    let abi = wrapped.into_abi();
    let restored = SafeArcDyn::<dyn Demo>::from_abi(abi);
    assert_eq!(objects.at(restored.trait_ref()).value(), 42);
}

#[test]
fn safe_arc_dyn_clone() {
    let mut objects = Objects::new();
    let arc: Arc<dyn Demo> = Arc::new(DemoValue(7));
    let wrapped = SafeArcDyn::<dyn Demo>::from_arc(objects.into_words(arc));
    let (cloned, retain) = wrapped.clone();
    objects.perform(retain);
    assert_eq!(objects.at(wrapped.trait_ref()).value(), 7);
    assert_eq!(objects.at(cloned.trait_ref()).value(), 7);
    objects.perform(wrapped.drop());
    assert_eq!(objects.at(cloned.trait_ref()).value(), 7);
}

#[test]
fn the_last_handle_lets_the_object_go() {
    let mut objects = Objects::new();
    let arc: Arc<dyn Demo> = Arc::new(DemoValue(1));
    let watch = Arc::downgrade(&arc);
    let words = objects.into_words(arc);
    let wrapped = SafeArcDyn::<dyn Demo>::from_arc(words);
    let (cloned, retain) = wrapped.clone();
    objects.perform(retain);
    assert_eq!(watch.strong_count(), 2);
    objects.perform(wrapped.drop());
    assert_eq!(watch.strong_count(), 1);
    objects.perform(cloned.drop());
    assert_eq!(watch.strong_count(), 0);
}

#[test]
fn packing_keeps_the_words_in_order() {
    let ptr = pack_fat_ptr([0x10, 0x20]);
    assert_eq!(ptr, AbiDynFatPtr { data: 0x10, vtable: 0x20 });
    assert_eq!(unpack_fat_ptr(ptr), [0x10, 0x20]);
    assert_eq!(pack_fat_ptr(unpack_fat_ptr(ptr)), ptr);
}

#[test]
fn from_arc_pairs_the_object_with_the_arc_functions() {
    let abi = SafeArcDyn::<dyn Demo>::from_arc([0x10, 0x20]).into_abi();
    assert_eq!(abi.object, AbiDynFatPtr { data: 0x10, vtable: 0x20 });
    assert_eq!(abi.retain, RetainFn::Arc);
    assert_eq!(abi.release, ReleaseFn::Arc);
}

#[test]
fn a_native_module_gives_its_object() {
    let mut objects = Objects::new();
    let arc: Arc<dyn Demo> = Arc::new(DemoValue(9));
    let abi = SafeArcDyn::<dyn Demo>::from_arc(objects.into_words(arc)).into_abi();
    let module = match NativeModule::<dyn Demo>::entered(this_process("libdemo.so"), abi) {
        Ok(module) => module,
        Err(_) => panic!("the object is not null"),
    };
    assert_eq!(objects.at(module.trait_ref()).value(), 9);

    let (handle, retain) = module.clone_handle();
    objects.perform(retain);
    assert_eq!(handle.trait_ref(), module.trait_ref());

    let closing = module.drop();
    assert_eq!(closing.lib.path(), "libdemo.so");
    objects.perform(closing.call.unwrap());
    assert_eq!(objects.at(handle.trait_ref()).value(), 9);
    objects.perform(handle.drop());
    assert!(objects.owners([0x1000, DEMO_VTABLE]).is_empty());
}

#[test]
fn a_null_object_from_an_entry_point_is_refused() {
    let refused = NativeModule::<dyn Demo>::entered(this_process("x"), AbiStableDynRef::null());
    assert!(matches!(refused, Err(LoadError::NullEntryPoint)));
    let half = AbiStableDynRef {
        object: AbiDynFatPtr { data: 0x10, vtable: 0 },
        retain: RetainFn::Module(1),
        release: ReleaseFn::Module(2),
    };
    let refused = NativeModule::<dyn Demo>::entered(this_process("x"), half);
    assert!(matches!(refused, Err(LoadError::NullEntryPoint)));
}
