//! Backends as services.
pub use crate::models::rag_config::{Rag, RagServices};
use vstd::prelude::*;

verus! {

/// A retrieval backend seen as a service.
pub trait RagService {}

/// `left + right`, for sums that fit in a `u64`.
pub fn internal_adder(left: u64, right: u64) -> (r: u64)
    requires
        left + right <= u64::MAX,
    ensures
        r == left + right,
{
    left + right
}

} // verus!
