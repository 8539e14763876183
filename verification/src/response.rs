//! The response envelope that the transport layer serialises for the caller.
//!
//! Every operation resolves to exactly one envelope: code `0` with optional
//! data on success, or a non-zero code with a message and no data.

use vstd::prelude::*;

verus! {

/// The `{code, message, data?}` envelope shared by all endpoints.
#[derive(Debug, Clone, PartialEq, Eq)]
pub struct ApiResponse<T> {
    pub code: i32,
    pub message: String,
    pub data: Option<T>,
}

impl<T> ApiResponse<T> {
    /// A success envelope carrying `data`.
    pub fn success(data: T) -> (r: Self)
        ensures
            r.code == 0,
            r.message@ == "ok"@,
            r.data == Some(data),
    {
        ApiResponse { code: 0, message: "ok".to_owned(), data: Some(data) }
    }

    /// An error envelope with the given code and message, and no data.
    pub fn error(code: i32, msg: String) -> (r: Self)
        ensures
            r.code == code,
            r.message == msg,
            r.data is None,
    {
        ApiResponse { code, message: msg, data: None }
    }
}

impl ApiResponse<()> {
    /// A success envelope for operations that return no data.
    pub fn ok() -> (r: Self)
        ensures
            r.code == 0,
            r.message@ == "ok"@,
            r.data is None,
    {
        ApiResponse { code: 0, message: "ok".to_owned(), data: None }
    }
}

} // verus!
