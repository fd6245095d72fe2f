//! Shared ownership of immutable values.

use std::sync::Arc;
use vstd::prelude::*;

verus! {

/// Wraps `Arc::clone`: the new pointer leads to the same value as `value`.
#[verifier::external_body]
pub(crate) fn share<T>(value: &Arc<T>) -> (res: Arc<T>)
    ensures
        res == *value,
{
    Arc::clone(value)
}

/// A copy of an optional string.
pub fn copy_text(value: &Option<String>) -> (res: Option<String>)
    ensures
        res == *value,
{
    match value {
        Some(text) => Some(text.clone()),
        None => None,
    }
}

} // verus!
