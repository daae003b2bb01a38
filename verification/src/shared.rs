//! Shared ownership handles.

use std::sync::Arc;
use vstd::prelude::*;

verus! {

/// Calls `<Arc<T> as Clone>::clone`, which makes another pointer to the same
/// allocation; the clone therefore points at the same value.
#[verifier::external_body]
pub(crate) fn arc_clone<T>(a: &Arc<T>) -> (r: Arc<T>)
    ensures
        r == *a,
{
    Arc::clone(a)
}

} // verus!
