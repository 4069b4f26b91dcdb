//! The failures that a call can end in.

use vstd::prelude::*;

verus! {

/// Why an operation failed.
#[derive(Debug)]
pub enum ApiError {
    /// The identifier handed in does not have the required shape; it is kept.
    InvalidWxid(String),
    /// The request did not complete; the transport's description of the cause.
    Transport(String),
    /// The reply's body is not JSON.
    Decode(serde_json::Error),
}

} // verus!
