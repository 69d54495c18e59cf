//! Plain success reply body shared by the handlers.
use vstd::prelude::*;

verus! {

/// A status word together with a human-readable message.
pub struct Response {
    pub status: &'static str,
    pub message: String,
}

} // verus!
