use vstd::prelude::*;
use crate::note::Note;

verus! {

/// Directory under the user's home that holds the store.
pub const STORE_DIR: &'static str = ".heard";

/// Name of the store's file within that directory.
pub const STORE_FILE: &'static str = "notes.json";

/// Why a store could not be read: kept apart so that a caller may tell a
/// missing file from a damaged one, though both load as an empty store.
pub enum LoadError {
    /// There is no file at the store's path.
    Absent,
    /// The file exists but could not be read as text.
    Unreadable,
    /// The text is not an encoded sequence of notes.
    Corrupt,
}

/// The notes that a load attempt yields: those decoded, or none at all when
/// the file was missing, unreadable or did not decode.
pub fn notes_or_empty(loaded: Result<Vec<Note>, LoadError>) -> (r: Vec<Note>)
    ensures
        match loaded {
            Ok(v) => r@ == v@,
            Err(_) => r@.len() == 0,
        },
{
    match loaded {
        Ok(v) => v,
        Err(_) => Vec::new(),
    }
}

} // verus!
