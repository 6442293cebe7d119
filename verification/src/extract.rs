//! Extraction of input arguments.
//!
//! The kernel needs the inputs of an operation, such as the bytes of a path,
//! for as long as the operation is in progress, so the operation owns them.
//! Most operations hand back only their regular result; an operation wrapped
//! in an [`Extractor`] also hands back the inputs it was given.

use vstd::prelude::*;

verus! {

/// Extract input arguments from operations.
pub trait Extract: Sized {
    /// Wrap the operation so that completing it also returns its inputs.
    fn extract(self) -> (e: Extractor<Self>)
        ensures
            e.fut == self,
    {
        Extractor { fut: self }
    }
}

/// Operation wrapper that returns the input arguments in addition to the
/// regular result; see the [`Extract`] trait.
#[derive(Debug)]
pub struct Extractor<Fut> {
    /// The wrapped operation.
    pub fut: Fut,
}

} // verus!
