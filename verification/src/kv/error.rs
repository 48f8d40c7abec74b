//! The errors a key-value store can report.

use vstd::prelude::*;

verus! {

/// Why a storage operation or a command failed.
#[derive(Debug, PartialEq)]
pub enum KvError {
    /// No value is stored under the named key.
    NotFound(String),
    /// The command could not be parsed.
    InvalidCommand,
    /// The store failed to process the named command on the named key; the
    /// last field carries the store's own description.
    StorageError(&'static str, String, String),
    /// Any other internal failure.
    Internal(String),
}

/// Relies on `format!`: the fixed prefix joined with the key's text.
#[verifier::external_body]
fn fmt_not_found(key: &String) -> String {
    format!("Not found for {key}")
}

/// Relies on `format!`: the fixed template joined with the three fields.
#[verifier::external_body]
fn fmt_storage_error(command: &str, key: &String, cause: &String) -> String {
    format!("Cannot process command {command} with key: {key}. Error: {cause}")
}

/// Relies on `format!`: the fixed prefix joined with the description.
#[verifier::external_body]
fn fmt_internal(cause: &String) -> String {
    format!("Internal error: {cause}")
}

impl KvError {
    /// The numeric code a response carries for this error: 404 for a
    /// missing key, 400 for an unparsable command, 500 for the rest.
    pub open spec fn code_spec(&self) -> u32 {
        match self {
            KvError::NotFound(_) => 404,
            KvError::InvalidCommand => 400,
            _ => 500,
        }
    }

    /// Exec mirror of [`Self::code_spec`].
    pub fn code(&self) -> (c: u32)
        ensures
            c == self.code_spec(),
    {
        match self {
            KvError::NotFound(_) => 404,
            KvError::InvalidCommand => 400,
            _ => 500,
        }
    }

    /// A human-readable description of the error.
    pub fn message(&self) -> (m: String)
        ensures
            self is InvalidCommand ==> m@ == "Cannot parse command."@,
    {
        match self {
            KvError::NotFound(key) => fmt_not_found(key),
            KvError::InvalidCommand => "Cannot parse command.".to_owned(),
            KvError::StorageError(command, key, cause) => fmt_storage_error(command, key, cause),
            KvError::Internal(cause) => fmt_internal(cause),
        }
    }
}

} // verus!
