//! Shared library handles, and the names of symbols.
use libloading::Library;
use std::sync::Arc;
use vstd::prelude::*;
use vstd::utf8::{decode_utf8, valid_utf8};

use crate::error::{LoadError, LoadFailure};

verus! {

/// An open dynamic library, which is only passed on.
#[verifier::external_type_specification]
#[verifier::external_body]
pub struct ExLibrary(libloading::Library);

/// What `String::from_utf8_lossy` makes of `bytes`.
pub uninterp spec fn utf8_lossy(bytes: Seq<u8>) -> Seq<char>;

/// Calls `String::from_utf8_lossy` and takes the text out of the `Cow` that it
/// returns.
///
/// Believed of it: the text depends on the bytes alone and is called
/// [`utf8_lossy`]; valid UTF-8 is decoded as it stands; anything else leaves a
/// replacement character in the text; a NUL in the text comes from a NUL among
/// the bytes. Which bytes a replacement character stands for is left to the
/// name.
#[verifier::external_body]
fn from_utf8_lossy(bytes: &[u8]) -> (res: String)
    ensures
        res@ == utf8_lossy(bytes@),
        valid_utf8(bytes@) ==> res@ == decode_utf8(bytes@),
        !valid_utf8(bytes@) ==> res@.contains('\u{FFFD}'),
        res@.contains('\0') ==> bytes@.contains(0),
{
    String::from_utf8_lossy(bytes).into_owned()
}

/// The length of the name that starts `symbol`: everything before the first
/// NUL, or all of it where there is none.
pub open spec fn name_len(symbol: Seq<u8>) -> nat
    decreases symbol.len(),
{
    if symbol.len() == 0 || symbol[0] == 0 {
        0
    } else {
        1 + name_len(symbol.drop_first())
    }
}

/// The bytes of `symbol` before its first NUL.
pub open spec fn name_bytes(symbol: Seq<u8>) -> Seq<u8> {
    symbol.take(name_len(symbol) as int)
}

/// The name of `symbol` as messages show it.
pub open spec fn display_name(symbol: Seq<u8>) -> Seq<char> {
    utf8_lossy(name_bytes(symbol))
}

/// The name ends at the first NUL: no byte of it is NUL, and where bytes
/// follow it, the first of them is.
pub proof fn law_name_ends_at_first_nul(symbol: Seq<u8>)
    ensures
        name_len(symbol) <= symbol.len(),
        name_bytes(symbol).len() == name_len(symbol),
        forall|i: int| 0 <= i < name_len(symbol) ==> symbol[i] != 0,
        name_len(symbol) < symbol.len() ==> symbol[name_len(symbol) as int] == 0,
    decreases symbol.len(),
{
    if symbol.len() != 0 && symbol[0] != 0 {
        let rest = symbol.drop_first();
        law_name_ends_at_first_nul(rest);
        assert forall|i: int| 0 <= i < name_len(symbol) implies symbol[i] != 0 by {
            if i > 0 {
                assert(rest[i - 1] == symbol[i]);
            }
        }
        if name_len(symbol) < symbol.len() {
            assert(rest[name_len(rest) as int] == symbol[name_len(symbol) as int]);
        }
    }
}

/// A name without NUL is shown alike with and without a terminator, whatever
/// follows the terminator.
pub proof fn law_terminator_not_shown(name: Seq<u8>, rest: Seq<u8>)
    requires
        !name.contains(0),
    ensures
        name_bytes(name) == name,
        name_bytes(name + seq![0u8] + rest) == name,
        display_name(name + seq![0u8] + rest) == display_name(name),
{
    let full = name + seq![0u8] + rest;
    law_name_ends_at_first_nul(name);
    law_name_ends_at_first_nul(full);
    assert(full[name.len() as int] == 0);
    assert forall|i: int| 0 <= i < name.len() implies full[i] != 0 by {
        assert(full[i] == name[i]);
        assert(name.contains(name[i]));
    }
    if name_len(name) < name.len() {
        assert(name.contains(name[name_len(name) as int]));
    }
    assert(name_len(full) == name.len());
    assert(name_bytes(name) =~= name);
    assert(name_bytes(full) =~= name);
}

/// The name of `symbol`, for messages: its bytes up to the first NUL, decoded
/// as UTF-8 with replacement characters where they are not UTF-8.
pub fn display_symbol(symbol: &[u8]) -> (res: String)
    ensures
        res@ == display_name(symbol@),
        valid_utf8(name_bytes(symbol@)) ==> res@ == decode_utf8(name_bytes(symbol@)),
        !valid_utf8(name_bytes(symbol@)) ==> res@.contains('\u{FFFD}'),
        !res@.contains('\0'),
{
    let mut end: usize = 0;
    while end < symbol.len() && symbol[end] != 0
        invariant
            end <= symbol@.len(),
            forall|i: int| 0 <= i < end ==> symbol@[i] != 0,
        decreases symbol@.len() - end,
    {
        end = end + 1;
    }
    proof {
        law_name_ends_at_first_nul(symbol@);
        assert(name_bytes(symbol@) =~= symbol@.subrange(0, end as int));
    }
    from_utf8_lossy(&symbol[0..end])
}

/// A loaded library: the library itself and the text of the path it came from.
pub struct LibView {
    pub library: Library,
    pub path: Seq<char>,
}

/// A dynamic library, shared by all handles that need it to stay loaded.
///
/// The library is unloaded when the last `DynLib` over it is gone.
pub struct DynLib {
    library: Arc<Library>,
    path: String,
}

impl View for DynLib {
    type V = LibView;

    closed spec fn view(&self) -> LibView {
        LibView { library: *self.library, path: self.path@ }
    }
}

impl Clone for DynLib {
    /// Another handle to the same library.
    fn clone(&self) -> (res: Self)
        ensures
            res@ == self@,
    {
        DynLib { library: self.library.clone(), path: self.path.clone() }
    }
}

/// The handle over the current process, `process` being the library that
/// stands for it.
pub open spec fn unowned_lib(process: Library) -> LibView {
    LibView { library: process, path: "<unowned>"@ }
}

/// What loading the library at `path` comes to, where opening it came to
/// `opened`.
pub open spec fn load_outcome(
    path: Seq<char>,
    opened: Result<Library, libloading::Error>,
) -> Result<LibView, LoadFailure> {
    match opened {
        Ok(library) => Ok(LibView { library, path }),
        Err(cause) => Err(LoadFailure::Open { path, cause }),
    }
}

/// What looking `symbol` up in `lib` comes to, where the lookup came to
/// `found`.
pub open spec fn symbol_outcome<T>(
    lib: LibView,
    symbol: Seq<u8>,
    found: Result<T, libloading::Error>,
) -> Result<T, LoadFailure> {
    match found {
        Ok(value) => Ok(value),
        Err(cause) => Err(
            LoadFailure::Symbol { name: display_name(symbol), path: lib.path, cause },
        ),
    }
}

impl DynLib {
    /// Take charge of the library at `path`, `opened` being what opening it
    /// came to.
    pub fn load(path: &str, opened: Result<Library, libloading::Error>) -> (res: Result<
        Self,
        LoadError,
    >)
        ensures
            match load_outcome(path@, opened) {
                Ok(lib) => res matches Ok(loaded) && loaded@ == lib,
                Err(failure) => res matches Err(error) && error@ == failure,
            },
    {
        match opened {
            Ok(library) => Ok(Self::from_library(library, path.to_owned())),
            Err(cause) => Err(LoadError::Open { path: path.to_owned(), cause }),
        }
    }

    /// Wrap a library that is open already.
    pub fn from_library(library: Library, path: String) -> (res: Self)
        ensures
            res@ == (LibView { library, path: path@ }),
    {
        DynLib { library: Arc::new(library), path }
    }

    /// A handle over the current process, which is never unloaded, `process`
    /// being what opening the process itself came to. For references whose
    /// library is kept alive by other means.
    pub fn unowned(process: Library) -> (res: Self)
        ensures
            res@ == unowned_lib(process),
    {
        Self::from_library(process, "<unowned>".to_owned())
    }

    /// The path that the library was loaded from.
    pub fn path(&self) -> (res: &str)
        ensures
            res@ == self@.path,
    {
        self.path.as_str()
    }

    /// The library itself, for a lookup in it.
    pub fn library(&self) -> (res: &Library)
        ensures
            *res == self@.library,
    {
        &self.library
    }

    /// The value of the symbol `name`, `found` being what the lookup in this
    /// library came to.
    pub fn symbol<T: Copy>(&self, name: &[u8], found: Result<T, libloading::Error>) -> (res: Result<
        T,
        LoadError,
    >)
        ensures
            match symbol_outcome(self@, name@, found) {
                Ok(value) => res matches Ok(got) && got == value,
                Err(failure) => res matches Err(error) && error@ == failure,
            },
    {
        match found {
            Ok(value) => Ok(value),
            Err(cause) => Err(
                LoadError::Symbol {
                    name: display_symbol(name),
                    path: self.path.clone(),
                    cause,
                },
            ),
        }
    }

    /// The value of a symbol, or `None` where the lookup did not find it.
    pub fn try_symbol<T: Copy>(&self, found: Result<T, libloading::Error>) -> (res: Option<T>)
        ensures
            res == match found {
                Ok(value) => Some(value),
                Err(_) => None,
            },
    {
        match found {
            Ok(value) => Some(value),
            Err(_) => None,
        }
    }
}

/// A symbol is shown by its bytes before the first NUL, and by nothing else:
/// decoded where they are UTF-8, and never with a NUL.
pub proof fn law_symbol_shown_by_its_name(
    symbol: &[u8],
    name: Seq<u8>,
    rest: Seq<u8>,
    shown: String,
)
    requires
        !name.contains(0),
        symbol@ == name || symbol@ == name + seq![0u8] + rest,
        call_ensures(display_symbol, (symbol,), shown),
    ensures
        shown@ == utf8_lossy(name),
        valid_utf8(name) ==> shown@ == decode_utf8(name),
        !valid_utf8(name) ==> shown@.contains('\u{FFFD}'),
        !shown@.contains('\0'),
{
    law_terminator_not_shown(name, rest);
}

/// A handle gives out the library and the path that it was made from, and so
/// does its clone.
pub proof fn law_handle_keeps_library_and_path(
    library: Library,
    path: String,
    lib: DynLib,
    twin: DynLib,
    given: &Library,
    told: &str,
    twin_given: &Library,
    twin_told: &str,
)
    requires
        call_ensures(DynLib::from_library, (library, path), lib),
        call_ensures(<DynLib as Clone>::clone, (&lib,), twin),
        call_ensures(DynLib::library, (&lib,), given),
        call_ensures(DynLib::path, (&lib,), told),
        call_ensures(DynLib::library, (&twin,), twin_given),
        call_ensures(DynLib::path, (&twin,), twin_told),
    ensures
        *given == library,
        told@ == path@,
        *twin_given == library,
        twin_told@ == path@,
{
}

/// A library that was opened is held under the path it was opened by; where it
/// was not, the failure tells that path and the loader's own error.
pub proof fn law_load_keeps_library_and_path(
    path: &str,
    opened: Result<Library, libloading::Error>,
    made: Result<DynLib, LoadError>,
)
    requires
        call_ensures(DynLib::load, (path, opened), made),
    ensures
        match opened {
            Ok(library) => made matches Ok(lib) && lib@.library == library && lib@.path == path@,
            Err(cause) => made matches Err(LoadError::Open { path: told, cause: behind })
                && told@ == path@ && behind == cause,
        },
{
}

/// The handle over the current process holds the process and tells that it
/// owns no library.
pub proof fn law_unowned_is_the_process(process: Library, lib: DynLib, given: &Library, told: &str)
    requires
        call_ensures(DynLib::unowned, (process,), lib),
        call_ensures(DynLib::library, (&lib,), given),
        call_ensures(DynLib::path, (&lib,), told),
    ensures
        *given == process,
        told@ == "<unowned>"@,
{
}

/// A symbol has the value that the lookup found. Where it found none, the
/// failure tells the name looked for, the path of the library looked in, and
/// the loader's own error; and a symbol that may be absent is absent.
pub proof fn law_symbol_is_what_was_found<T: Copy>(
    lib: DynLib,
    symbol: &[u8],
    name: Seq<u8>,
    rest: Seq<u8>,
    found: Result<T, libloading::Error>,
    got: Result<T, LoadError>,
    tried: Option<T>,
)
    requires
        !name.contains(0),
        symbol@ == name || symbol@ == name + seq![0u8] + rest,
        call_ensures(DynLib::symbol::<T>, (&lib, symbol, found), got),
        call_ensures(DynLib::try_symbol::<T>, (&lib, found), tried),
    ensures
        match found {
            Ok(value) => got == Ok::<T, LoadError>(value) && tried == Some(value),
            Err(cause) => got matches Err(LoadError::Symbol { name: shown, path, cause: behind })
                && shown@ == utf8_lossy(name) && path@ == lib@.path && behind == cause
                && tried is None,
        },
{
    law_terminator_not_shown(name, rest);
}

} // verus!
