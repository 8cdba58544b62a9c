//! Handles to state that the renderer shares with control code.

use std::sync::Arc;
use vstd::prelude::*;

verus! {

/// `Arc::clone`: another handle to the same value.
#[verifier::external_body]
pub(crate) fn share<T>(shared: &Arc<T>) -> (handle: Arc<T>)
    ensures
        handle == *shared,
{
    shared.clone()
}

} // verus!
