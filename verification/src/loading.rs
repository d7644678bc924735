//! The steps of a load: open the library, look the symbol up, call the entry.
//!
//! A [`ModuleLoad`] says which step is due and what it is due on. The host
//! carries the step out and reports what came of it; the load moves on or
//! fails. What the entry returns goes to the `entered` of the handle that the
//! load is for.
use libloading::Library;
use vstd::prelude::*;

use crate::error::{LoadError, LoadFailure};
use crate::helpers::{DynLib, LibView};

verus! {

/// What a symbol is looked up for. It decides how a failed lookup is told.
#[derive(Debug, Clone, Copy, PartialEq, Eq, Structural)]
pub enum EntryKind {
    /// A symbol with no further role: a table getter, a box entry.
    Plain,
    /// The entry of a counted reference.
    DynEntry,
    /// The entry of a native module.
    EntryPoint,
}

/// A load under way. `E` is the type of the entry that the symbol refers to.
pub enum ModuleLoad<E> {
    /// The library at `path` is to be opened.
    Open { path: String, symbol: Vec<u8>, kind: EntryKind },
    /// `symbol` is to be looked up in `lib`.
    Resolve { lib: DynLib, symbol: Vec<u8>, kind: EntryKind },
    /// `entry` is to be called, while `lib` is held.
    Enter { lib: DynLib, entry: E },
    /// Nothing is left to do.
    Failed { error: LoadError },
}

/// A [`ModuleLoad`] with its texts and bytes as sequences.
pub enum LoadStage<E> {
    Open { path: Seq<char>, symbol: Seq<u8>, kind: EntryKind },
    Resolve { lib: LibView, symbol: Seq<u8>, kind: EntryKind },
    Enter { lib: LibView, entry: E },
    Failed { failure: LoadFailure },
}

/// The failure of a lookup of `symbol` in `lib`.
pub open spec fn missing(
    kind: EntryKind,
    lib: LibView,
    symbol: Seq<u8>,
    cause: libloading::Error,
) -> LoadFailure {
    let name = crate::helpers::display_name(symbol);
    match kind {
        EntryKind::Plain => LoadFailure::Symbol { name, path: lib.path, cause },
        EntryKind::DynEntry => LoadFailure::DynEntry { name, path: lib.path, cause },
        EntryKind::EntryPoint => LoadFailure::EntryPoint { name, path: lib.path, cause },
    }
}

impl<E> LoadStage<E> {
    /// The first stage of a load of `symbol` from the library at `path`.
    pub open spec fn from_path(path: Seq<char>, symbol: Seq<u8>, kind: EntryKind) -> Self {
        LoadStage::Open { path, symbol, kind }
    }

    /// The first stage of a load of `symbol` from a loaded library.
    pub open spec fn from_lib(lib: LibView, symbol: Seq<u8>, kind: EntryKind) -> Self {
        LoadStage::Resolve { lib, symbol, kind }
    }

    /// The stage after opening the library came to `outcome`. Only a stage
    /// that asks for it moves.
    pub open spec fn opened(self, outcome: Result<Library, libloading::Error>) -> Self {
        match self {
            LoadStage::Open { path, symbol, kind } => match crate::helpers::load_outcome(
                path,
                outcome,
            ) {
                Ok(lib) => LoadStage::Resolve { lib, symbol, kind },
                Err(failure) => LoadStage::Failed { failure },
            },
            _ => self,
        }
    }

    /// The stage after looking the symbol up came to `outcome`. Only a stage
    /// that asks for it moves.
    pub open spec fn resolved(self, outcome: Result<E, libloading::Error>) -> Self {
        match self {
            LoadStage::Resolve { lib, symbol, kind } => match outcome {
                Ok(entry) => LoadStage::Enter { lib, entry },
                Err(cause) => LoadStage::Failed { failure: missing(kind, lib, symbol, cause) },
            },
            _ => self,
        }
    }
}

impl<E> View for ModuleLoad<E> {
    type V = LoadStage<E>;

    open spec fn view(&self) -> LoadStage<E> {
        match *self {
            ModuleLoad::Open { path, symbol, kind } => LoadStage::Open {
                path: path@,
                symbol: symbol@,
                kind,
            },
            ModuleLoad::Resolve { lib, symbol, kind } => LoadStage::Resolve {
                lib: lib@,
                symbol: symbol@,
                kind,
            },
            ModuleLoad::Enter { lib, entry } => LoadStage::Enter { lib: lib@, entry },
            ModuleLoad::Failed { error } => LoadStage::Failed { failure: error@ },
        }
    }
}

/// Puts the role of the symbol in front of a failed lookup.
fn with_context(kind: EntryKind, error: LoadError) -> (res: LoadError)
    ensures
        res@ == match (kind, error@) {
            (EntryKind::DynEntry, LoadFailure::Symbol { name, path, cause }) =>
                LoadFailure::DynEntry { name, path, cause },
            (EntryKind::EntryPoint, LoadFailure::Symbol { name, path, cause }) =>
                LoadFailure::EntryPoint { name, path, cause },
            (_, failure) => failure,
        },
{
    match (kind, error) {
        (EntryKind::DynEntry, LoadError::Symbol { name, path, cause }) => LoadError::DynEntry {
            name,
            path,
            cause,
        },
        (EntryKind::EntryPoint, LoadError::Symbol { name, path, cause }) => LoadError::EntryPoint {
            name,
            path,
            cause,
        },
        (_, error) => error,
    }
}

impl<E: Copy> ModuleLoad<E> {
    /// A load of `symbol` from the library at `path`.
    pub fn open(path: &str, symbol: &[u8], kind: EntryKind) -> (res: Self)
        ensures
            res@ == LoadStage::<E>::from_path(path@, symbol@, kind),
    {
        ModuleLoad::Open {
            path: path.to_owned(),
            symbol: vstd::slice::slice_to_vec(symbol),
            kind,
        }
    }

    /// A load of `symbol` from a library that is loaded already.
    pub fn from_lib(lib: DynLib, symbol: &[u8], kind: EntryKind) -> (res: Self)
        ensures
            res@ == LoadStage::<E>::from_lib(lib@, symbol@, kind),
    {
        ModuleLoad::Resolve { lib, symbol: vstd::slice::slice_to_vec(symbol), kind }
    }

    /// The load after opening the library came to `outcome`.
    pub fn opened(self, outcome: Result<Library, libloading::Error>) -> (res: Self)
        ensures
            res@ == self@.opened(outcome),
            !(self is Open) ==> res == self,
    {
        match self {
            ModuleLoad::Open { path, symbol, kind } => match DynLib::load(path.as_str(), outcome) {
                Ok(lib) => ModuleLoad::Resolve { lib, symbol, kind },
                Err(error) => ModuleLoad::Failed { error },
            },
            other => other,
        }
    }

    /// The load after looking the symbol up came to `outcome`.
    pub fn resolved(self, outcome: Result<E, libloading::Error>) -> (res: Self)
        ensures
            res@ == self@.resolved(outcome),
            !(self is Resolve) ==> res == self,
    {
        match self {
            ModuleLoad::Resolve { lib, symbol, kind } => {
                match lib.symbol(symbol.as_slice(), outcome) {
                    Ok(entry) => ModuleLoad::Enter { lib, entry },
                    Err(error) => ModuleLoad::Failed { error: with_context(kind, error) },
                }
            },
            other => other,
        }
    }
}

/// Whether a load found the symbol that it was started for: the library could
/// be opened and exports it.
pub fn looks_like_module<E: Copy>(probe: &ModuleLoad<E>) -> (res: bool)
    ensures
        res == (probe@ is Enter),
        res == (*probe is Enter),
{
    match probe {
        ModuleLoad::Enter { .. } => true,
        _ => false,
    }
}

/// A probe of `symbol` in the library at `path` succeeds exactly where the
/// library opens and the lookup finds the symbol.
pub proof fn law_probe<E>(
    path: Seq<char>,
    symbol: Seq<u8>,
    kind: EntryKind,
    opened: Result<Library, libloading::Error>,
    found: Result<E, libloading::Error>,
)
    ensures
        (LoadStage::<E>::from_path(path, symbol, kind).opened(opened).resolved(found) is Enter) == (
        opened is Ok && found is Ok),
{
}

/// A load from a path goes on, once the library is open, as the load from that
/// library does.
pub proof fn law_load_is_open_then_from_lib<E>(
    path: Seq<char>,
    symbol: Seq<u8>,
    kind: EntryKind,
    library: Library,
    lib: LibView,
)
    requires
        lib.library == library,
        lib.path == path,
    ensures
        LoadStage::<E>::from_path(path, symbol, kind).opened(Ok(library))
            == LoadStage::<E>::from_lib(lib, symbol, kind),
{
}

/// A load that failed stays failed, with the failure that came first, whatever
/// is reported to it afterwards.
pub proof fn law_failure_is_final<E>(
    stage: LoadStage<E>,
    opened: Result<Library, libloading::Error>,
    found: Result<E, libloading::Error>,
)
    requires
        stage is Failed,
    ensures
        stage.opened(opened) == stage,
        stage.resolved(found) == stage,
{
}

/// What a load from a path comes to before its entry is called: the failure of
/// the first step that failed, or the entry, with the opened library held.
pub proof fn law_load_outcome<E>(
    path: Seq<char>,
    symbol: Seq<u8>,
    kind: EntryKind,
    opened: Result<Library, libloading::Error>,
    found: Result<E, libloading::Error>,
)
    ensures
        match (
            opened,
            found,
            LoadStage::<E>::from_path(path, symbol, kind).opened(opened).resolved(found),
        ) {
            (Err(cause), _, LoadStage::Failed { failure }) => failure == (LoadFailure::Open {
                path,
                cause,
            }),
            (Ok(library), Err(cause), LoadStage::Failed { failure }) => failure == missing(
                kind,
                LibView { library, path },
                symbol,
                cause,
            ),
            (Ok(library), Ok(entry), LoadStage::Enter { lib, entry: called }) => lib == (LibView {
                library,
                path,
            }) && called == entry,
            _ => false,
        },
{
}

/// A load from a path asks for that path to be opened, and once it is, for the
/// lookup of exactly the bytes of the symbol it was started with, in the
/// library that was opened. A path that does not open is told, with the
/// loader's own error.
pub proof fn law_load_asks_for_its_path_and_symbol<E: Copy>(
    path: &str,
    symbol: &[u8],
    kind: EntryKind,
    load: ModuleLoad<E>,
    outcome: Result<Library, libloading::Error>,
    next: ModuleLoad<E>,
)
    requires
        call_ensures(ModuleLoad::<E>::open, (path, symbol, kind), load),
        call_ensures(ModuleLoad::<E>::opened, (load, outcome), next),
    ensures
        load matches ModuleLoad::Open { path: asked, symbol: kept, kind: role } && asked@ == path@
            && kept@ == symbol@ && role == kind,
        match outcome {
            Ok(library) => next matches ModuleLoad::Resolve { lib, symbol: asked, kind: role }
                && lib@.library == library && lib@.path == path@ && asked@ == symbol@ && role
                == kind,
            Err(cause) => next matches ModuleLoad::Failed {
                error: LoadError::Open { path: told, cause: behind },
            } && told@ == path@ && behind == cause,
        },
{
}

/// A load from a loaded library asks at once for the lookup of exactly the
/// bytes of the symbol it was started with, in that library.
pub proof fn law_load_from_library_asks_for_its_symbol<E: Copy>(
    lib: DynLib,
    symbol: &[u8],
    kind: EntryKind,
    load: ModuleLoad<E>,
)
    requires
        call_ensures(ModuleLoad::<E>::from_lib, (lib, symbol, kind), load),
    ensures
        load matches ModuleLoad::Resolve { lib: held, symbol: asked, kind: role }
            && held@.library == lib@.library && held@.path == lib@.path && asked@ == symbol@
            && role == kind,
{
}

/// A load whose symbol was found asks for the call of what was found, with the
/// library that it was found in held, and counts as the load of a module.
pub proof fn law_load_enters_what_was_found<E: Copy>(
    lib: DynLib,
    symbol: Vec<u8>,
    kind: EntryKind,
    entry: E,
    next: ModuleLoad<E>,
    probed: bool,
)
    requires
        call_ensures(
            ModuleLoad::<E>::resolved,
            (
                (ModuleLoad::<E>::Resolve { lib, symbol, kind }),
                Ok::<E, libloading::Error>(entry),
            ),
            next,
        ),
        call_ensures(looks_like_module::<E>, (&next,), probed),
    ensures
        next matches ModuleLoad::Enter { lib: held, entry: called } && held@.library
            == lib@.library && held@.path == lib@.path && called == entry,
        probed,
{
}

/// A load whose symbol was not found fails and tells the name of the symbol,
/// the path of the library, the loader's own error, and what the symbol was
/// looked up for. It does not count as the load of a module.
pub proof fn law_load_tells_what_was_missing<E: Copy>(
    lib: DynLib,
    symbol: Vec<u8>,
    kind: EntryKind,
    name: Seq<u8>,
    rest: Seq<u8>,
    cause: libloading::Error,
    next: ModuleLoad<E>,
    probed: bool,
)
    requires
        !name.contains(0),
        symbol@ == name || symbol@ == name + seq![0u8] + rest,
        call_ensures(
            ModuleLoad::<E>::resolved,
            (
                (ModuleLoad::<E>::Resolve { lib, symbol, kind }),
                Err::<E, libloading::Error>(cause),
            ),
            next,
        ),
        call_ensures(looks_like_module::<E>, (&next,), probed),
    ensures
        match (kind, next) {
            (
                EntryKind::Plain,
                ModuleLoad::Failed {
                    error: LoadError::Symbol { name: shown, path, cause: behind },
                },
            ) => shown@ == crate::helpers::utf8_lossy(name) && path@ == lib@.path && behind
                == cause,
            (
                EntryKind::DynEntry,
                ModuleLoad::Failed {
                    error: LoadError::DynEntry { name: shown, path, cause: behind },
                },
            ) => shown@ == crate::helpers::utf8_lossy(name) && path@ == lib@.path && behind
                == cause,
            (
                EntryKind::EntryPoint,
                ModuleLoad::Failed {
                    error: LoadError::EntryPoint { name: shown, path, cause: behind },
                },
            ) => shown@ == crate::helpers::utf8_lossy(name) && path@ == lib@.path && behind
                == cause,
            _ => false,
        },
        !probed,
{
    crate::helpers::law_terminator_not_shown(name, rest);
}

/// A report of a step that is not due changes nothing.
pub proof fn law_only_the_step_due_moves_a_load<E: Copy>(
    load: ModuleLoad<E>,
    opened: Result<Library, libloading::Error>,
    after_open: ModuleLoad<E>,
    found: Result<E, libloading::Error>,
    after_lookup: ModuleLoad<E>,
    probed: bool,
)
    requires
        call_ensures(ModuleLoad::<E>::opened, (load, opened), after_open),
        call_ensures(ModuleLoad::<E>::resolved, (load, found), after_lookup),
        call_ensures(looks_like_module::<E>, (&load,), probed),
    ensures
        !(load is Open) ==> after_open == load,
        !(load is Resolve) ==> after_lookup == load,
        probed <==> load is Enter,
{
}

} // verus!
