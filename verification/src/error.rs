//! Fatal error type for the library's entry points.

use vstd::prelude::*;

verus! {

/// Fatal errors returned from fallible entry points.
#[derive(Debug, Clone, Copy, PartialEq, Eq, Structural)]
pub enum Error {
    /// The capability inputs were internally inconsistent in a way that prevents negotiation.
    InvalidCapabilities,
}

impl Error {
    /// The error's description.
    pub fn message(&self) -> (r: &'static str)
        ensures
            r@ == "capability inputs were internally inconsistent"@,
    {
        match self {
            Error::InvalidCapabilities => "capability inputs were internally inconsistent",
        }
    }
}

} // verus!
