//! The two kinds of failure: the storage engine's and the serialization
//! layer's.

use vstd::prelude::*;
use vstd::std_specs::convert::FromSpecImpl;

verus! {

/// `rusqlite::Error`, the storage engine's own error. Nothing is known of
/// what it holds.
#[verifier::external_type_specification]
#[verifier::external_body]
pub struct ExEngineError(rusqlite::Error);

/// `serde_rusqlite::Error`, the serialization layer's own error. Nothing is
/// known of what it holds.
#[verifier::external_type_specification]
#[verifier::external_body]
pub struct ExCodecError(serde_rusqlite::Error);

/// Why an operation failed. Either kind carries the underlying cause
/// unchanged.
#[derive(Debug)]
pub enum RusqliteHelperError {
    /// The storage engine refused a statement or could not run it.
    SQLite(rusqlite::Error),
    /// A record could not be turned into named parameters, or a row could
    /// not be turned into a record.
    Serialization(serde_rusqlite::Error),
}

/// `serde_rusqlite::Error::Serialization`, the serialization layer's general
/// error, holding `message`.
#[verifier::external_body]
pub(crate) fn serialization_failure(message: &str) -> (cause: serde_rusqlite::Error) {
    serde_rusqlite::Error::Serialization(message.to_string())
}

impl From<rusqlite::Error> for RusqliteHelperError {
    fn from(cause: rusqlite::Error) -> (error: Self) {
        RusqliteHelperError::SQLite(cause)
    }
}

impl FromSpecImpl<rusqlite::Error> for RusqliteHelperError {
    open spec fn obeys_from_spec() -> bool {
        true
    }

    open spec fn from_spec(cause: rusqlite::Error) -> Self {
        RusqliteHelperError::SQLite(cause)
    }
}

impl From<serde_rusqlite::Error> for RusqliteHelperError {
    fn from(cause: serde_rusqlite::Error) -> (error: Self) {
        RusqliteHelperError::Serialization(cause)
    }
}

impl FromSpecImpl<serde_rusqlite::Error> for RusqliteHelperError {
    open spec fn obeys_from_spec() -> bool {
        true
    }

    open spec fn from_spec(cause: serde_rusqlite::Error) -> Self {
        RusqliteHelperError::Serialization(cause)
    }
}

} // verus!
