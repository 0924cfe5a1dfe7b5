//! Access to the measurement state from code that does not own it.

use vstd::prelude::*;

verus! {

/// Why the measurement state could not be read.
#[derive(Copy, Clone, Debug, PartialEq, Eq)]
pub enum OutputProviderError<T> {
    LockFailed,
    Other(T),
}

/// Something that lends out the measurement state for the time of a call.
pub trait OutputProvider {
    /// The measurement state that this provider lends out.
    type Output;
    /// What a failed access gives.
    type Error;

    fn with_output<R, F: FnOnce(&Self::Output) -> R>(&self, f: F) -> Result<R, Self::Error>;
}

} // verus!
