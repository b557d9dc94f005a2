//! Core REST API specific messages.

use vstd::prelude::*;

verus! {

/// REST API response with an optional code and message, both omitted from
/// the serialized form when absent.
#[derive(Debug, Clone)]
pub struct ApiResponse<'a> {
    pub code: Option<&'a str>,
    pub message: Option<&'a str>,
}

impl<'a> ApiResponse<'a> {
    /// A response carrying both a code and a message.
    pub fn new(code: &'a str, message: &'a str) -> (r: ApiResponse<'a>)
        ensures
            r.code matches Some(c) && c@ == code@,
            r.message matches Some(m) && m@ == message@,
    {
        ApiResponse { code: Some(code), message: Some(message) }
    }
}

} // verus!
