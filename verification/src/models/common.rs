//! Transport-facing payloads shared by several routes.

use vstd::prelude::*;

verus! {

/// A plain human-readable message payload.
#[derive(Debug)]
pub struct Message {
    pub message: String,
}

} // verus!
