//! Shared ownership of immutable values.
use vstd::prelude::*;
use std::sync::Arc;

verus! {

/// Another handle onto the value that `value` points to, made with
/// `Arc::clone`: the same allocation, so the same value.
#[verifier::external_body]
pub(crate) fn share<T>(value: &Arc<T>) -> (r: Arc<T>)
    ensures
        r == *value,
{
    Arc::clone(value)
}

} // verus!
