//! Data boxes: what their one owner sees, and who frees them.
use dyn_loader::{AbiBox, AbiBoxHandle, BoundaryCall, DynLib, FreeFn, LoadError, Memory};
use libloading::Library;

const COUNTING_FREE: usize = 0x4000;

/// A module that counts how often its freeing function is called, and knows
/// where the memory is that it allocated last.
struct Producer {
    freed: u32,
    allocated: usize,
}

impl Producer {
    fn make(&mut self, payload: Vec<u8>) -> AbiBox {
        let len = payload.len();
        self.allocated = address(&payload);
        AbiBox {
            data: Some(Memory::new(payload.leak())),
            len,
            free: FreeFn::Module(COUNTING_FREE),
        }
    }

    fn perform(&mut self, call: BoundaryCall) -> Vec<u8> {
        match call {
            BoundaryCall::Free { function, data, len } => {
                assert_eq!(function, FreeFn::Module(COUNTING_FREE));
                assert_eq!(data.as_slice().len(), len);
                assert_eq!(address(data.as_slice()), self.allocated);
                self.freed += 1;
                let bytes = data.into_bytes();
                assert_eq!(address(bytes), self.allocated);
                bytes.to_vec()
            }
            _ => panic!("a box is freed and not counted"),
        }
    }
}

fn address(bytes: &[u8]) -> usize {
    bytes.as_ptr() as usize
}

fn process() -> Library {
    libloading::os::unix::Library::this().into()
}

fn this_process(path: &str) -> DynLib {
    DynLib::from_library(process(), path.to_string())
}

#[test]
fn cdyn_box_drop_calls_producer_free() {
    let mut producer = Producer { freed: 0, allocated: 0 };
    let box_ = producer.make(vec![1u8, 2, 3, 4]);

    let handle = AbiBoxHandle::from_box_unowned(box_, process());
    assert_eq!(handle.as_slice(), &[1, 2, 3, 4]);
    assert_eq!(handle.len(), 4);
    assert_eq!(producer.freed, 0);

    let freed = producer.perform(handle.drop().call.unwrap());
    assert_eq!(producer.freed, 1);
    assert_eq!(freed, [1, 2, 3, 4]);
}

#[test]
fn cdyn_box_from_vec_roundtrip_and_free() {
    let box_ = AbiBox::from_vec(b"hello cross-module".to_vec());
    assert_eq!(box_.len, 18);
    let made = address(box_.as_slice());
    let handle = AbiBoxHandle::from_box_unowned(box_, process());
    assert_eq!(&*handle, b"hello cross-module");
    match handle.drop().call {
        Some(BoundaryCall::Free { function, data, len }) => {
            assert_eq!(function, FreeFn::Rust);
            assert_eq!(data.as_slice(), b"hello cross-module");
            assert_eq!(address(data.into_bytes()), made);
            assert_eq!(len, 18);
        }
        _ => panic!("the box is freed by this module"),
    }

    // into_raw transfers ownership: nothing is freed on the way.
    let mut producer = Producer { freed: 0, allocated: 0 };
    let box_ = producer.make(vec![9u8; 4]);
    let handle = AbiBoxHandle::from_box_unowned(box_, process());
    let raw = handle.into_raw();
    assert_eq!(producer.freed, 0);
    let freed = producer.perform(raw.into_free().unwrap());
    assert_eq!(producer.freed, 1);
    assert_eq!(freed, [9, 9, 9, 9]);
}

#[test]
fn cdyn_box_null_is_safe() {
    let handle = AbiBoxHandle::from_box_unowned(AbiBox::null(), process());
    assert!(handle.is_empty());
    assert!(handle.as_slice().is_empty());
    assert!(handle.drop().call.is_none());
}

#[test]
fn from_vec_cuts_spare_capacity() {
    let mut bytes = Vec::with_capacity(64);
    bytes.extend_from_slice(&[5, 6, 7]);
    let box_ = AbiBox::from_vec(bytes);
    assert_eq!(box_.len, 3);
    assert_eq!(box_.data.unwrap().into_bytes().len(), 3);
}

#[test]
fn a_box_of_no_bytes_is_not_null() {
    let box_ = AbiBox::from_vec(Vec::new());
    assert!(!box_.is_null());
    assert_eq!(box_.len, 0);
    assert!(box_.as_slice().is_empty());
    match box_.into_free() {
        Some(BoundaryCall::Free { function, len, .. }) => {
            assert_eq!(function, FreeFn::Rust);
            assert_eq!(len, 0);
        }
        _ => panic!("the box owns memory, if none of it"),
    }
}

#[test]
fn into_raw_says_whether_there_is_anything() {
    let (null, consumed) = AbiBox::null().into_raw();
    assert!(null.is_null());
    assert_eq!(null.free, FreeFn::Noop);
    assert!(!consumed);
    let (full, consumed) = AbiBox::from_vec(vec![8]).into_raw();
    assert_eq!(full.as_slice(), &[8]);
    assert!(consumed);
}

#[test]
fn a_null_box_that_promises_bytes_shows_none() {
    let odd = AbiBox { data: None, len: 5, free: FreeFn::Module(COUNTING_FREE) };
    let handle = AbiBoxHandle::from_box_unowned(odd, process());
    assert_eq!(handle.len(), 5);
    assert!(!handle.is_empty());
    assert!(handle.as_slice().is_empty());
    assert!(handle.drop().call.is_none());
}

#[test]
fn only_the_promised_bytes_are_shown() {
    let wide = AbiBox {
        data: Some(Memory::new(vec![1u8, 2, 3, 4].leak())),
        len: 2,
        free: FreeFn::Module(COUNTING_FREE),
    };
    assert_eq!(wide.as_slice(), &[1, 2]);
}

#[test]
fn adopting_and_giving_back_frees_once() {
    let mut producer = Producer { freed: 0, allocated: 0 };
    let mut box_ = producer.make(vec![3, 1, 4]);
    for _ in 0..3 {
        let handle = AbiBoxHandle::from_box(box_, this_process("libbytes.so"));
        box_ = handle.into_raw();
    }
    let closing = AbiBoxHandle::from_box(box_, this_process("libbytes.so")).drop();
    assert_eq!(closing.lib.path(), "libbytes.so");
    assert_eq!(producer.perform(closing.call.unwrap()), [3, 1, 4]);
    assert_eq!(producer.freed, 1);
}

#[test]
fn a_null_box_from_an_entry_is_refused() {
    let refused = AbiBoxHandle::entered(this_process("x"), AbiBox::null());
    assert!(matches!(refused, Err(LoadError::NullBox)));

    let mut producer = Producer { freed: 0, allocated: 0 };
    match AbiBoxHandle::entered(this_process("libbytes.so"), producer.make(vec![2])) {
        Ok(handle) => {
            assert_eq!(&*handle, &[2]);
            assert_eq!(handle.drop().lib.path(), "libbytes.so");
        }
        Err(_) => panic!("the box is not null"),
    }
}
