//! The errors that the store's operations report.

use vstd::prelude::*;

verus! {

/// An owned filesystem path.
#[verifier::external_type_specification]
#[verifier::external_body]
pub struct ExPathBuf(std::path::PathBuf);

/// The error of every fallible operation of the store.
#[derive(Debug)]
pub enum TransientError {
    /// The key whose counter was to be incremented is absent, or the counter
    /// is already at its largest value.
    IncretmentError,
    /// A stored metadata record could not be decoded, or a record could not
    /// be encoded.
    ParsingToByteError,
    /// A stored value is not valid UTF-8.
    ParsingToUTF8Error,
    /// The storage engine failed.
    SledError {
        /// The storage engine's own error.
        error: sled::Error,
    },
    /// A multi-partition transaction was aborted or failed.
    SledTransactionError,
    /// An expiration-index key is shorter than its eight-byte time prefix.
    ParsingToU64ByteFailed,
    /// A backup was asked for into a folder that does not exist.
    FolderNotFound {
        /// The folder that was asked for.
        path: std::path::PathBuf,
    },
    /// A file to back up has no usable name.
    FileNameDoesntExist,
    /// The system clock reads a time before the UNIX epoch.
    ClockError,
}

} // verus!
