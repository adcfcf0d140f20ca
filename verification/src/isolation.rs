//! Failure isolation at a boundary.
//!
//! A computation that ends at a completer is run under protection, so that a
//! failure raised inside it is captured together with its payload. What such a
//! run yields is a `Result` whose `Err` holds the captured payload. The
//! functions here say which boundary result each protected run stands for.

use vstd::prelude::*;
use crate::error::BoundaryError;

verus! {

/// The result that a protected run of a computation stands for: the
/// computation's own result where it finished, and an unexpected internal
/// failure with the captured payload where it raised one.
pub open spec fn isolated<T, D, C, P>(
    run: Result<Result<T, BoundaryError<D, C, P>>, P>,
) -> Result<T, BoundaryError<D, C, P>> {
    match run {
        Ok(result) => result,
        Err(payload) => Err(BoundaryError::UnexpectedInternalFailure(payload)),
    }
}

/// The result that a protected conversion stands for: the converted value, a
/// conversion failure where the conversion declined, and an unexpected internal
/// failure with the captured payload where it raised one.
pub open spec fn converted<V, D, C, P>(conversion: Result<Result<V, C>, P>) -> Result<
    V,
    BoundaryError<D, C, P>,
> {
    match conversion {
        Ok(Ok(value)) => Ok(value),
        Ok(Err(cause)) => Err(BoundaryError::ConversionFailure(cause)),
        Err(payload) => Err(BoundaryError::UnexpectedInternalFailure(payload)),
    }
}

/// Turns the outcome of a protected run into the result to hand to a
/// completer. A failure raised during the run never goes further: it comes out
/// as an ordinary `Err`.
pub fn isolate<T, D, C, P>(run: Result<Result<T, BoundaryError<D, C, P>>, P>) -> (result:
    Result<T, BoundaryError<D, C, P>>)
    ensures
        result == isolated(run),
        run is Err ==> result == Err::<T, BoundaryError<D, C, P>>(
            BoundaryError::UnexpectedInternalFailure(run->Err_0),
        ),
{
    match run {
        Ok(result) => result,
        Err(payload) => Err(BoundaryError::UnexpectedInternalFailure(payload)),
    }
}

/// Turns the outcome of a protected conversion into the result to deliver.
pub fn isolate_conversion<V, D, C, P>(conversion: Result<Result<V, C>, P>) -> (result: Result<
    V,
    BoundaryError<D, C, P>,
>)
    ensures
        result == converted::<V, D, C, P>(conversion),
{
    match conversion {
        Ok(Ok(value)) => Ok(value),
        Ok(Err(cause)) => Err(BoundaryError::ConversionFailure(cause)),
        Err(payload) => Err(BoundaryError::UnexpectedInternalFailure(payload)),
    }
}

} // verus!
