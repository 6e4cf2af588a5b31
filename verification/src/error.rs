//! The ways in which a save or a load can fail.

use vstd::prelude::*;

verus! {

/// Why a save or a load was given up. Each failure ends the request that
/// met it; nothing is retried and nothing is done by halves.
#[derive(Clone, Debug, PartialEq, Eq)]
pub enum PersistenceError {
    /// None of the candidate files could be tested for existence.
    InvalidPath,
    /// Every candidate file that could be tested exists already.
    TooManyCollisions,
    /// Reading or writing failed; `cause` is what the file system said.
    Io { cause: String },
    /// The file to load does not exist.
    MissingFile,
    /// The text read is not a list of records.
    MalformedData,
    /// The records could not be written as text that reads back as the same
    /// records.
    EncodingFailed,
}

/// A failure as contracts see it.
pub enum ErrorView {
    InvalidPath,
    TooManyCollisions,
    Io { cause: Seq<char> },
    MissingFile,
    MalformedData,
    EncodingFailed,
}

impl View for PersistenceError {
    type V = ErrorView;

    open spec fn view(&self) -> ErrorView {
        match self {
            PersistenceError::InvalidPath => ErrorView::InvalidPath,
            PersistenceError::TooManyCollisions => ErrorView::TooManyCollisions,
            PersistenceError::Io { cause } => ErrorView::Io { cause: cause@ },
            PersistenceError::MissingFile => ErrorView::MissingFile,
            PersistenceError::MalformedData => ErrorView::MalformedData,
            PersistenceError::EncodingFailed => ErrorView::EncodingFailed,
        }
    }
}

impl ErrorView {
    /// What a report says of this failure after the scene's name.
    pub open spec fn reason_text(self) -> Seq<char> {
        match self {
            ErrorView::InvalidPath => "Invalid path"@,
            ErrorView::TooManyCollisions => "Already got too many saves with this name"@,
            ErrorView::Io { cause } => cause,
            ErrorView::MissingFile => "No such file"@,
            ErrorView::MalformedData => "Malformed scene data"@,
            ErrorView::EncodingFailed => "Failed to serialize world"@,
        }
    }
}

impl PersistenceError {
    /// The reason as text, for a report.
    pub fn reason(&self) -> (text: String)
        ensures
            text@ == self@.reason_text(),
    {
        match self {
            PersistenceError::InvalidPath => String::from_str("Invalid path"),
            PersistenceError::TooManyCollisions => String::from_str(
                "Already got too many saves with this name",
            ),
            PersistenceError::Io { cause } => cause.clone(),
            PersistenceError::MissingFile => String::from_str("No such file"),
            PersistenceError::MalformedData => String::from_str("Malformed scene data"),
            PersistenceError::EncodingFailed => String::from_str("Failed to serialize world"),
        }
    }
}

} // verus!
