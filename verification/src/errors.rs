//! The error taxonomy of the loader core.
//!
//! Every operation of the core returns a typed outcome; none of these
//! conditions is fatal, and callers decide how to react to each.

use vstd::prelude::*;
use vstd::string::StringExecFns;

verus! {

/// One error kind per way the loader core can fail.
#[derive(Debug)]
pub enum LoadError {
    /// The resolved library file does not exist on disk.
    NotFound,
    /// The OS-level open call failed; the payload carries the platform's
    /// diagnostic text.
    LoadFailed(String),
    /// A load was requested while another load, of any identifier, was
    /// already in progress.
    AlreadyLoading,
    /// Symbol resolution failed for the named entry point.
    SymbolNotFound(String),
    /// An operation was attempted against a null handle.
    InvalidHandle,
    /// The size-query phase of the two-phase buffer protocol reported a
    /// non-zero status.
    SizeQueryFailed(i32),
    /// The fill phase of the two-phase buffer protocol reported a non-zero
    /// status.
    FillFailed(i32),
}

impl LoadError {
    /// A uniform diagnostic line for each error kind; resolution failures
    /// read `function not found: <name>`.
    pub fn message(&self) -> (m: String)
        ensures
            match *self {
                LoadError::NotFound => m@ == "library file not found"@,
                LoadError::LoadFailed(t) => m@ == "failed to load library: "@ + t@,
                LoadError::AlreadyLoading => m@ == "the library file is already being loaded"@,
                LoadError::SymbolNotFound(n) => m@ == "function not found: "@ + n@,
                LoadError::InvalidHandle => m@ == "library handle is null"@,
                LoadError::SizeQueryFailed(_) => m@ == "the size query phase reported an error"@,
                LoadError::FillFailed(_) => m@ == "the buffer fill phase reported an error"@,
            },
    {
        match self {
            LoadError::NotFound => String::from_str("library file not found"),
            LoadError::LoadFailed(t) => String::from_str("failed to load library: ").concat(
                t.as_str(),
            ),
            LoadError::AlreadyLoading => String::from_str(
                "the library file is already being loaded",
            ),
            LoadError::SymbolNotFound(n) => String::from_str("function not found: ").concat(
                n.as_str(),
            ),
            LoadError::InvalidHandle => String::from_str("library handle is null"),
            LoadError::SizeQueryFailed(_) => String::from_str(
                "the size query phase reported an error",
            ),
            LoadError::FillFailed(_) => String::from_str(
                "the buffer fill phase reported an error",
            ),
        }
    }
}

} // verus!
