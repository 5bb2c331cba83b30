//! Errors that the webhook's HTTP interface reports.

use crate::common::text::{join2, owned};
use vstd::prelude::*;

verus! {

/// An error with its code.
#[derive(Debug, Clone)]
pub struct APIError {
    pub code: u16,
    pub message: String,
}

impl APIError {
    /// An error with the given code and message.
    pub fn new(code: u16, message: String) -> (r: Self)
        ensures
            r.code == code,
            r.message == message,
    {
        Self { code, message }
    }

    /// An error that nothing else accounts for: code 50000.
    pub fn unexpected_error(message: &str) -> (r: Self)
        ensures
            r.code == 50000,
            r.message@ == message@,
    {
        Self { code: 50000, message: owned(message) }
    }

    /// A request with a content type that is not accepted: code 40001.
    pub fn invalid_content_type(content_type: &str) -> (r: Self)
        ensures
            r.code == 40001,
            r.message@ == "Invalid content type: "@ + content_type@,
    {
        Self { code: 40001, message: join2("Invalid content type: ", content_type) }
    }

    /// A request whose body cannot be read: code 40002.
    pub fn invalid_data_format(message: &str) -> (r: Self)
        ensures
            r.code == 40002,
            r.message@ == message@,
    {
        Self { code: 40002, message: owned(message) }
    }

    /// A request for what is not there yet: code 50001.
    pub fn not_implemented() -> (r: Self)
        ensures
            r.code == 50001,
            r.message@ == "Not implemented"@,
    {
        Self { code: 50001, message: owned("Not implemented") }
    }
}

} // verus!
