//! Body of the stream-status endpoint.

use vstd::prelude::*;

verus! {

/// Whether the stream is live.
#[derive(Debug)]
pub struct StreamStatusResponse {
    pub online: bool,
}

} // verus!
