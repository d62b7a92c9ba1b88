//! The error kinds that the accessor reports.

use vstd::prelude::*;

verus! {

/// Everything that can go wrong while opening, scanning or querying a store.
///
/// `FileNotFound` and `Io` are produced by the surrounding program at the
/// file boundary; the library itself reports the query errors.
#[derive(Debug, Clone, PartialEq, Eq)]
pub enum AppError {
    /// The path did not name an existing file at open time.
    FileNotFound,
    /// A read, seek or metadata operation failed; the payload describes it.
    Io(String),
    /// The requested page lies beyond the addressed results.
    PageOutOfRange,
    /// A query was made before any store was opened.
    NoActiveStore,
    /// A selected line failed to parse as a record; the payload is the line.
    InvalidRecord(String),
    /// The synthetic data generator was used before it was initialized.
    DebugError(String),
    /// Any other failure; the payload describes it.
    General(String),
}

impl AppError {
    /// A short human-readable description of the error.
    pub fn describe(&self) -> (r: String)
        ensures
            r@ == self.spec_describe(),
    {
        match self {
            AppError::FileNotFound => "file not found".to_owned(),
            AppError::Io(m) => m.clone(),
            AppError::PageOutOfRange => "page out of range".to_owned(),
            AppError::NoActiveStore => "no file is open".to_owned(),
            AppError::InvalidRecord(m) => m.clone(),
            AppError::DebugError(m) => m.clone(),
            AppError::General(m) => m.clone(),
        }
    }

    /// What `describe` returns for each kind.
    pub open spec fn spec_describe(&self) -> Seq<char> {
        match self {
            AppError::FileNotFound => "file not found"@,
            AppError::Io(m) => m@,
            AppError::PageOutOfRange => "page out of range"@,
            AppError::NoActiveStore => "no file is open"@,
            AppError::InvalidRecord(m) => m@,
            AppError::DebugError(m) => m@,
            AppError::General(m) => m@,
        }
    }
}

/// The result type used throughout the library.
pub type AppResult<T> = Result<T, AppError>;

} // verus!
