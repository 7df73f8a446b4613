//! The error classes the core surfaces to its callers.

use vstd::prelude::*;

verus! {

/// What a lifecycle or persistence operation can report.
#[derive(Clone, Copy, Debug, PartialEq, Eq, Structural)]
pub enum Error {
    /// An action was rejected: the unit is rate-limited or not eligible.
    UnitActionECanceled,
    /// A record or unit that was asked for does not exist.
    NotFound,
    /// Anything else, surfaced from a collaborator.
    Other,
}

impl Error {
    /// A short name for logs; the core has no formatter of its own.
    pub fn as_str(&self) -> (r: &'static str)
        ensures
            *self is UnitActionECanceled ==> r@ == "unit action canceled"@,
            *self is NotFound ==> r@ == "not found"@,
            *self is Other ==> r@ == "other"@,
    {
        match self {
            Error::UnitActionECanceled => "unit action canceled",
            Error::NotFound => "not found",
            Error::Other => "other",
        }
    }
}

} // verus!
