//! The request/response domain of the key-value store.

use vstd::prelude::*;

use crate::kv::error::KvError;

verus! {

/// One key-value pair.
#[derive(Debug)]
pub struct KV {
    pub key: String,
    pub value: String,
}

/// A command for the store.
#[derive(Debug)]
pub enum Request {
    Get { key: String },
    MGet { keys: Vec<String> },
    Put { kv: KV },
    MSet { kvs: Vec<KV> },
    Del { keys: Vec<String> },
}

/// What the store answers: a code (0 for success, an error code
/// otherwise), a message (empty on success), and the values read.
#[derive(Debug)]
pub struct Response {
    pub code: u32,
    pub message: String,
    pub values: Vec<String>,
}

impl Default for Response {
    /// The all-empty success response.
    fn default() -> (r: Response)
        ensures
            r.code == 0,
            r.message@ == Seq::<char>::empty(),
            r.values@ == Seq::<String>::empty(),
    {
        Response { code: 0, message: String::new(), values: Vec::new() }
    }
}

impl Response {
    /// A success response carrying the given values.
    pub fn from_values(values: Vec<String>) -> (r: Response)
        ensures
            r.code == 0,
            r.message@ == Seq::<char>::empty(),
            r.values == values,
    {
        Response { code: 0, message: String::new(), values }
    }

    /// A failure response: the error's code and message, no values.
    pub fn from_error(err: &KvError) -> (r: Response)
        ensures
            r.code == err.code_spec(),
            r.code != 0,
            r.values@ == Seq::<String>::empty(),
    {
        Response { code: err.code(), message: err.message(), values: Vec::new() }
    }

    /// The response for a storage result: the values on success, the
    /// error's code and message on failure.
    pub fn from_result(result: Result<Vec<String>, KvError>) -> (r: Response)
        ensures
            result matches Ok(values) ==> r.code == 0 && r.values == values,
            result matches Err(e) ==> r.code == e.code_spec() && r.code != 0 && r.values@
                == Seq::<String>::empty(),
    {
        match result {
            Ok(values) => Response::from_values(values),
            Err(err) => Response::from_error(&err),
        }
    }
}

} // verus!
