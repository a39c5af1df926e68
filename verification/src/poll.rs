//! The readiness signal of a pull-based computation.
//!
//! A poll either completes with a value or reports that internal progress was
//! made without a value being available yet, in which case the caller polls
//! again.

use vstd::prelude::*;

verus! {

/// The outcome of one poll of a lazy computation.
#[derive(Debug, Clone, PartialEq, Eq)]
pub enum Poll<T> {
    /// The computation produced a value.
    Ready(T),
    /// The computation made progress but has no value yet; poll again.
    Pending,
}

impl<T> Poll<T> {
    /// Whether this poll produced a value.
    pub open spec fn spec_is_ready(&self) -> bool {
        self is Ready
    }

    /// Whether this poll produced a value.
    pub fn is_ready(&self) -> (r: bool)
        ensures
            r == self.spec_is_ready(),
    {
        match self {
            Poll::Ready(_) => true,
            Poll::Pending => false,
        }
    }
}

} // verus!
