//! The errors that can reach a destination.

use vstd::prelude::*;

verus! {

/// What a destination is told when no value can be delivered.
#[derive(Debug, PartialEq, Eq)]
pub enum BoundaryError<D, C, P> {
    /// An error produced by the application logic, passed through untouched.
    Domain(D),
    /// A value could not be mapped to the destination's representation.
    ConversionFailure(C),
    /// An internal failure that was captured at a boundary, with the opaque
    /// payload it was raised with.
    UnexpectedInternalFailure(P),
}

/// The tag of a [`BoundaryError`], without what it carries.
#[derive(Clone, Copy, Debug, PartialEq, Eq, Structural)]
pub enum ErrorKind {
    /// The tag of [`BoundaryError::Domain`].
    Domain,
    /// The tag of [`BoundaryError::ConversionFailure`].
    ConversionFailure,
    /// The tag of [`BoundaryError::UnexpectedInternalFailure`].
    UnexpectedInternalFailure,
}

impl<D, C, P> BoundaryError<D, C, P> {
    /// The tag of this error.
    pub open spec fn spec_kind(&self) -> ErrorKind {
        match self {
            BoundaryError::Domain(_) => ErrorKind::Domain,
            BoundaryError::ConversionFailure(_) => ErrorKind::ConversionFailure,
            BoundaryError::UnexpectedInternalFailure(_) => ErrorKind::UnexpectedInternalFailure,
        }
    }

    /// The tag of this error.
    #[verifier::when_used_as_spec(spec_kind)]
    pub fn kind(&self) -> (kind: ErrorKind)
        ensures
            kind == self.spec_kind(),
    {
        match self {
            BoundaryError::Domain(_) => ErrorKind::Domain,
            BoundaryError::ConversionFailure(_) => ErrorKind::ConversionFailure,
            BoundaryError::UnexpectedInternalFailure(_) => ErrorKind::UnexpectedInternalFailure,
        }
    }
}

} // verus!
