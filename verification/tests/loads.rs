//! Loads, step by step, and what they say when they fail.
use dyn_loader::{
    display_symbol, looks_like_module, AbiBoxHandle, AbiRef, AbiTable, DynLib, EntryKind, LoadError,
    ModuleLoad, NativeModule,
};
use libloading::Library;

fn process() -> Library {
    libloading::os::unix::Library::this().into()
}

fn unopened() -> Result<Library, libloading::Error> {
    Err(libloading::Error::DlOpenUnknown)
}

fn unfound() -> Result<usize, libloading::Error> {
    Err(libloading::Error::DlSymUnknown)
}

fn failure(load: ModuleLoad<usize>) -> LoadError {
    match load {
        ModuleLoad::Failed { error } => error,
        _ => panic!("the load has not failed"),
    }
}

#[test]
fn a_load_asks_for_its_path_its_symbol_and_its_entry() {
    let load = AbiRef::<u8>::load::<usize>("libmy.so", b"my_get_dyn\0");
    match &load {
        ModuleLoad::Open { path, symbol, kind } => {
            assert_eq!(path, "libmy.so");
            assert_eq!(symbol, b"my_get_dyn\0");
            assert_eq!(*kind, EntryKind::DynEntry);
        }
        _ => panic!("the library is to be opened"),
    }
    let load = load.opened(Ok(process()));
    match &load {
        ModuleLoad::Resolve { lib, symbol, .. } => {
            assert_eq!(lib.path(), "libmy.so");
            assert_eq!(symbol, b"my_get_dyn\0");
        }
        _ => panic!("the symbol is to be looked up"),
    }
    assert!(!looks_like_module(&load));
    let load = load.resolved(Ok(0x77));
    assert!(looks_like_module(&load));
    match load {
        ModuleLoad::Enter { lib, entry } => {
            assert_eq!(lib.path(), "libmy.so");
            assert_eq!(entry, 0x77);
        }
        _ => panic!("the entry is to be called"),
    }
}

#[test]
fn each_handle_starts_its_own_kind_of_load() {
    let starts = [
        (AbiTable::<u8>::load::<usize>("p", b"s"), EntryKind::Plain),
        (AbiBoxHandle::load::<usize>("p", b"s"), EntryKind::Plain),
        (AbiRef::<u8>::load::<usize>("p", b"s"), EntryKind::DynEntry),
        (NativeModule::<u8>::load::<usize>("p", b"s"), EntryKind::EntryPoint),
    ];
    for (load, expected) in starts {
        assert!(matches!(load, ModuleLoad::Open { kind, .. } if kind == expected));
    }
    let lib = DynLib::from_library(process(), "p".to_string());
    let starts = [
        (AbiTable::<u8>::from_lib::<usize>(lib.clone(), b"s"), EntryKind::Plain),
        (AbiBoxHandle::from_lib::<usize>(lib.clone(), b"s"), EntryKind::Plain),
        (AbiRef::<u8>::from_lib::<usize>(lib.clone(), b"s"), EntryKind::DynEntry),
        (NativeModule::<u8>::from_lib::<usize>(lib, b"s"), EntryKind::EntryPoint),
    ];
    for (load, expected) in starts {
        assert!(matches!(load, ModuleLoad::Resolve { kind, .. } if kind == expected));
    }
}

#[test]
fn a_library_that_does_not_open() {
    let load = AbiTable::<u8>::load::<usize>("/nowhere/libmy.so", b"get\0").opened(unopened());
    assert!(!looks_like_module(&load));
    let error = failure(load);
    assert!(matches!(error, LoadError::Open { .. }));
    assert_eq!(
        error.messages(),
        ["failed to load dynamic library: /nowhere/libmy.so"]
    );
    assert!(matches!(error.into_cause(), Some(libloading::Error::DlOpenUnknown)));

    assert!(DynLib::load("gone.so", unopened()).is_err());
    match DynLib::load("here.so", Ok(process())) {
        Ok(lib) => assert_eq!(lib.path(), "here.so"),
        Err(_) => panic!("the library was opened"),
    }
}

#[test]
fn a_symbol_that_is_not_found() {
    let lib = DynLib::from_library(process(), "libmy.so".to_string());

    let plain = AbiTable::<u8>::from_lib::<usize>(lib.clone(), b"get_table\0").resolved(unfound());
    let error = failure(plain);
    assert!(matches!(error, LoadError::Symbol { .. }));
    assert_eq!(error.messages(), ["symbol 'get_table' not found in libmy.so"]);
    assert!(matches!(error.into_cause(), Some(libloading::Error::DlSymUnknown)));

    let data = AbiBoxHandle::from_lib::<usize>(lib.clone(), b"get_data").resolved(unfound());
    assert_eq!(failure(data).messages(), ["symbol 'get_data' not found in libmy.so"]);

    let counted = AbiRef::<u8>::from_lib::<usize>(lib.clone(), b"get_dyn\0").resolved(unfound());
    let error = failure(counted);
    assert!(matches!(error, LoadError::DynEntry { .. }));
    assert_eq!(
        error.messages(),
        [
            "dyn entry 'get_dyn' not found",
            "symbol 'get_dyn' not found in libmy.so"
        ]
    );
    assert!(matches!(error.into_cause(), Some(libloading::Error::DlSymUnknown)));

    let native = NativeModule::<u8>::from_lib::<usize>(lib, b"entry\0").resolved(unfound());
    let error = failure(native);
    assert!(matches!(error, LoadError::EntryPoint { .. }));
    assert_eq!(
        error.messages(),
        [
            "entry point 'entry' not found",
            "symbol 'entry' not found in libmy.so"
        ]
    );
    assert!(matches!(error.into_cause(), Some(libloading::Error::DlSymUnknown)));
}

#[test]
fn a_null_return_has_a_message_of_its_own() {
    assert_eq!(LoadError::NullVtable.messages(), ["vtable getter returned null"]);
    assert_eq!(LoadError::NullBox.messages(), ["box entry returned null AbiBox"]);
    assert_eq!(
        LoadError::NullDynEntry.messages(),
        ["dyn entry returned null AbiStableDynRef"]
    );
    assert_eq!(
        LoadError::NullEntryPoint.messages(),
        ["entry point returned null AbiStableDynRef"]
    );
    assert!(LoadError::NullVtable.into_cause().is_none());
}

#[test]
fn a_failed_load_stays_failed() {
    let load = AbiTable::<u8>::load::<usize>("a.so", b"s").opened(unopened());
    let load = load.opened(Ok(process())).resolved(Ok(3));
    assert_eq!(failure(load).messages(), ["failed to load dynamic library: a.so"]);
}

#[test]
fn a_load_from_a_path_goes_on_as_one_from_the_library() {
    let by_path = AbiRef::<u8>::load::<usize>("libmy.so", b"s").opened(Ok(process()));
    let lib = DynLib::from_library(process(), "libmy.so".to_string());
    let by_lib = AbiRef::<u8>::from_lib::<usize>(lib, b"s");
    assert_eq!(
        failure(by_path.resolved(unfound())).messages(),
        failure(by_lib.resolved(unfound())).messages()
    );
}

#[test]
fn a_table_is_copied_out() {
    let lib = DynLib::from_library(process(), "libtable.so".to_string());
    match AbiTable::entered(lib.clone(), Some([11u8, 22])) {
        Ok(table) => assert_eq!(*table.vtable(), [11, 22]),
        Err(_) => panic!("the table is not null"),
    }
    assert!(matches!(AbiTable::<u8>::entered(lib, None), Err(LoadError::NullVtable)));
}

#[test]
fn symbols_that_may_be_absent() {
    let lib = DynLib::unowned(process());
    assert_eq!(lib.path(), "<unowned>");
    assert_eq!(lib.try_symbol(Ok(5u8)), Some(5));
    assert_eq!(lib.try_symbol::<usize>(unfound()), None);
    assert!(matches!(lib.symbol(b"x", Ok(5u8)), Ok(5)));
    match lib.symbol::<usize>(b"x\0y", unfound()) {
        Err(error) => assert_eq!(error.messages(), ["symbol 'x' not found in <unowned>"]),
        Ok(_) => panic!("the symbol was not found"),
    }
}

#[test]
fn symbol_names_end_at_the_first_nul() {
    assert_eq!(display_symbol(b"my_get_vtable\0"), "my_get_vtable");
    assert_eq!(display_symbol(b"my_get_vtable"), "my_get_vtable");
    assert_eq!(display_symbol(b"one\0two\0"), "one");
    assert_eq!(display_symbol(b"\0hidden"), "");
    assert_eq!(display_symbol(b""), "");
    assert_eq!(display_symbol("gr\u{fc}n\0".as_bytes()), "gr\u{fc}n");
}

#[test]
fn symbol_names_that_are_not_utf8() {
    assert_eq!(display_symbol(b"ab\xffcd\0"), "ab\u{fffd}cd");
    assert_eq!(display_symbol(b"\xe2\x82\0"), "\u{fffd}");
    // Two bytes that some encoders write for NUL are no NUL in UTF-8.
    assert_eq!(display_symbol(b"a\xc0\x80\0b"), "a\u{fffd}\u{fffd}");
}
