//! The ways a load can fail, and the messages that tell them.
use vstd::prelude::*;

verus! {

/// The error of a failed open or lookup, which is only passed on.
#[verifier::external_type_specification]
#[verifier::external_body]
pub struct ExLoaderError(libloading::Error);

/// Why a load failed.
#[derive(Debug)]
pub enum LoadError {
    /// The library at `path` could not be opened.
    Open { path: String, cause: libloading::Error },
    /// The library at `path` exports no symbol `name`.
    Symbol { name: String, path: String, cause: libloading::Error },
    /// As `Symbol`, where the symbol was the entry of a counted reference.
    DynEntry { name: String, path: String, cause: libloading::Error },
    /// As `Symbol`, where the symbol was the entry of a native module.
    EntryPoint { name: String, path: String, cause: libloading::Error },
    /// The table getter returned a null pointer.
    NullVtable,
    /// The box entry returned a null box.
    NullBox,
    /// The entry of a counted reference returned a null reference.
    NullDynEntry,
    /// The entry of a native module returned a null reference.
    NullEntryPoint,
}

/// A [`LoadError`] with its texts as character sequences.
pub enum LoadFailure {
    Open { path: Seq<char>, cause: libloading::Error },
    Symbol { name: Seq<char>, path: Seq<char>, cause: libloading::Error },
    DynEntry { name: Seq<char>, path: Seq<char>, cause: libloading::Error },
    EntryPoint { name: Seq<char>, path: Seq<char>, cause: libloading::Error },
    NullVtable,
    NullBox,
    NullDynEntry,
    NullEntryPoint,
}

/// The message of a failed open.
pub open spec fn open_message(path: Seq<char>) -> Seq<char> {
    "failed to load dynamic library: "@ + path
}

/// The message of a failed lookup.
pub open spec fn symbol_message(name: Seq<char>, path: Seq<char>) -> Seq<char> {
    "symbol '"@ + name + "' not found in "@ + path
}

/// The message put in front where the symbol was a counted reference's entry.
pub open spec fn dyn_entry_message(name: Seq<char>) -> Seq<char> {
    "dyn entry '"@ + name + "' not found"@
}

/// The message put in front where the symbol was a native module's entry.
pub open spec fn entry_point_message(name: Seq<char>) -> Seq<char> {
    "entry point '"@ + name + "' not found"@
}

impl LoadFailure {
    /// The messages of this failure, outermost first. The text of the
    /// loader's own error, where there is one, is not among them: it would
    /// come last.
    pub open spec fn messages(self) -> Seq<Seq<char>> {
        match self {
            LoadFailure::Open { path, .. } => seq![open_message(path)],
            LoadFailure::Symbol { name, path, .. } => seq![symbol_message(name, path)],
            LoadFailure::DynEntry { name, path, .. } => seq![
                dyn_entry_message(name),
                symbol_message(name, path),
            ],
            LoadFailure::EntryPoint { name, path, .. } => seq![
                entry_point_message(name),
                symbol_message(name, path),
            ],
            LoadFailure::NullVtable => seq!["vtable getter returned null"@],
            LoadFailure::NullBox => seq!["box entry returned null AbiBox"@],
            LoadFailure::NullDynEntry => seq!["dyn entry returned null AbiStableDynRef"@],
            LoadFailure::NullEntryPoint => seq!["entry point returned null AbiStableDynRef"@],
        }
    }

    /// The loader's own error behind this failure.
    pub open spec fn cause(self) -> Option<libloading::Error> {
        match self {
            LoadFailure::Open { cause, .. } => Some(cause),
            LoadFailure::Symbol { cause, .. } => Some(cause),
            LoadFailure::DynEntry { cause, .. } => Some(cause),
            LoadFailure::EntryPoint { cause, .. } => Some(cause),
            _ => None,
        }
    }
}

impl View for LoadError {
    type V = LoadFailure;

    open spec fn view(&self) -> LoadFailure {
        match *self {
            LoadError::Open { path, cause } => LoadFailure::Open { path: path@, cause },
            LoadError::Symbol { name, path, cause } => LoadFailure::Symbol {
                name: name@,
                path: path@,
                cause,
            },
            LoadError::DynEntry { name, path, cause } => LoadFailure::DynEntry {
                name: name@,
                path: path@,
                cause,
            },
            LoadError::EntryPoint { name, path, cause } => LoadFailure::EntryPoint {
                name: name@,
                path: path@,
                cause,
            },
            LoadError::NullVtable => LoadFailure::NullVtable,
            LoadError::NullBox => LoadFailure::NullBox,
            LoadError::NullDynEntry => LoadFailure::NullDynEntry,
            LoadError::NullEntryPoint => LoadFailure::NullEntryPoint,
        }
    }
}

/// `before`, then `middle`, then `after`, as one string.
fn join(before: &str, middle: &str, after: &str) -> (res: String)
    ensures
        res@ == before@ + middle@ + after@,
{
    String::from_str(before).concat(middle).concat(after)
}

fn symbol_text(name: &str, path: &str) -> (res: String)
    ensures
        res@ == symbol_message(name@, path@),
{
    join("symbol '", name, "' not found in ").concat(path)
}

impl LoadError {
    /// The messages of this error, outermost first, as
    /// [`LoadFailure::messages`] gives them.
    pub fn messages(&self) -> (res: Vec<String>)
        ensures
            res.deep_view() == self@.messages(),
    {
        let res: Vec<String> = match self {
            LoadError::Open { path, .. } => {
                vec![String::from_str("failed to load dynamic library: ").concat(path.as_str())]
            },
            LoadError::Symbol { name, path, .. } => {
                vec![symbol_text(name.as_str(), path.as_str())]
            },
            LoadError::DynEntry { name, path, .. } => {
                vec![
                    join("dyn entry '", name.as_str(), "' not found"),
                    symbol_text(name.as_str(), path.as_str()),
                ]
            },
            LoadError::EntryPoint { name, path, .. } => {
                vec![
                    join("entry point '", name.as_str(), "' not found"),
                    symbol_text(name.as_str(), path.as_str()),
                ]
            },
            LoadError::NullVtable => vec![String::from_str("vtable getter returned null")],
            LoadError::NullBox => vec![String::from_str("box entry returned null AbiBox")],
            LoadError::NullDynEntry => {
                vec![String::from_str("dyn entry returned null AbiStableDynRef")]
            },
            LoadError::NullEntryPoint => {
                vec![String::from_str("entry point returned null AbiStableDynRef")]
            },
        };
        proof {
            assert(res.deep_view() =~= self@.messages());
        }
        res
    }

    /// The loader's own error behind this one.
    pub fn into_cause(self) -> (res: Option<libloading::Error>)
        ensures
            res == self@.cause(),
    {
        match self {
            LoadError::Open { cause, .. } => Some(cause),
            LoadError::Symbol { cause, .. } => Some(cause),
            LoadError::DynEntry { cause, .. } => Some(cause),
            LoadError::EntryPoint { cause, .. } => Some(cause),
            _ => None,
        }
    }
}

/// Each error is told by its own words: the path that did not open; the symbol
/// and the library without it, after what the symbol was looked up for; or what
/// returned null.
pub proof fn law_messages_tell_what_failed(error: LoadError, told: Vec<String>)
    requires
        call_ensures(LoadError::messages, (&error,), told),
    ensures
        match error {
            LoadError::Open { path, .. } => told@.len() == 1 && told@[0]@
                == "failed to load dynamic library: "@ + path@,
            LoadError::Symbol { name, path, .. } => told@.len() == 1 && told@[0]@ == "symbol '"@
                + name@ + "' not found in "@ + path@,
            LoadError::DynEntry { name, path, .. } => told@.len() == 2 && told@[0]@
                == "dyn entry '"@ + name@ + "' not found"@ && told@[1]@ == "symbol '"@ + name@
                + "' not found in "@ + path@,
            LoadError::EntryPoint { name, path, .. } => told@.len() == 2 && told@[0]@
                == "entry point '"@ + name@ + "' not found"@ && told@[1]@ == "symbol '"@ + name@
                + "' not found in "@ + path@,
            LoadError::NullVtable => told@.len() == 1 && told@[0]@
                == "vtable getter returned null"@,
            LoadError::NullBox => told@.len() == 1 && told@[0]@
                == "box entry returned null AbiBox"@,
            LoadError::NullDynEntry => told@.len() == 1 && told@[0]@
                == "dyn entry returned null AbiStableDynRef"@,
            LoadError::NullEntryPoint => told@.len() == 1 && told@[0]@
                == "entry point returned null AbiStableDynRef"@,
        },
{
    let texts = told.deep_view();
    assert(texts == error@.messages());
    assert(texts.len() == told@.len());
    assert forall|i: int| 0 <= i < told@.len() implies #[trigger] told@[i]@ == texts[i] by {}
}

/// The loader's own error comes out of an error as it went in, and where none
/// went in, none comes out.
pub proof fn law_cause_comes_out(error: LoadError, behind: Option<libloading::Error>)
    requires
        call_ensures(LoadError::into_cause, (error,), behind),
    ensures
        match error {
            LoadError::Open { cause, .. } => behind == Some(cause),
            LoadError::Symbol { cause, .. } => behind == Some(cause),
            LoadError::DynEntry { cause, .. } => behind == Some(cause),
            LoadError::EntryPoint { cause, .. } => behind == Some(cause),
            LoadError::NullVtable => behind is None,
            LoadError::NullBox => behind is None,
            LoadError::NullDynEntry => behind is None,
            LoadError::NullEntryPoint => behind is None,
        },
{
}

} // verus!
