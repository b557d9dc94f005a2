//! REST API specific messages of the first API revision.

use vstd::prelude::*;

verus! {

/// REST API response with an optional code and message, both omitted from
/// the serialized form when absent.
#[derive(Debug, Clone)]
pub struct ApiResponse<'a> {
    pub code: Option<&'a str>,
    pub message: Option<&'a str>,
}

} // verus!
