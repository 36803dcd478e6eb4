//! The error taxonomy shared by every component.

use vstd::prelude::*;

verus! {

/// Every failure that leaves the engine is exactly one of these.
#[derive(Clone, Copy, Debug, PartialEq, Eq, Structural)]
pub enum ApiError {
    /// Missing, malformed, forged or expired identity token.
    Unauthenticated,
    /// A valid identity that does not own the resource.
    Forbidden,
    /// The id does not resolve, or a state-gated transition matched no row.
    NotFound,
    /// A uniqueness violation at registration.
    Conflict,
    /// A malformed payload, turned away at the boundary.
    Validation,
    /// A failure of the store, of hashing or of signing.
    Internal,
}

impl ApiError {
    /// The HTTP status that stands for each error.
    pub open spec fn status(self) -> u16 {
        match self {
            ApiError::Unauthenticated => 401,
            ApiError::Forbidden => 403,
            ApiError::NotFound => 404,
            ApiError::Conflict => 409,
            ApiError::Validation => 422,
            ApiError::Internal => 500,
        }
    }

    /// The HTTP status code with which the error is surfaced.
    pub fn status_code(&self) -> (code: u16)
        ensures
            code == self.status(),
    {
        match self {
            ApiError::Unauthenticated => 401,
            ApiError::Forbidden => 403,
            ApiError::NotFound => 404,
            ApiError::Conflict => 409,
            ApiError::Validation => 422,
            ApiError::Internal => 500,
        }
    }
}

/// What a single-row lookup answers: the row, or `NotFound` when the id did
/// not resolve.
pub fn found_or_404<T>(row: Option<T>) -> (result: Result<T, ApiError>)
    ensures
        result == match row {
            Some(r) => Ok::<T, ApiError>(r),
            None => Err::<T, ApiError>(ApiError::NotFound),
        },
{
    match row {
        Some(r) => Ok(r),
        None => Err(ApiError::NotFound),
    }
}

/// What an existence check answers before anything is written for a row
/// that hangs on another: leave to go on where that other row exists,
/// `NotFound` where it does not.
pub fn exists_or_404(present: bool) -> (result: Result<(), ApiError>)
    ensures
        result == if present {
            Ok::<(), ApiError>(())
        } else {
            Err::<(), ApiError>(ApiError::NotFound)
        },
{
    if present {
        Ok(())
    } else {
        Err(ApiError::NotFound)
    }
}

/// What a keyed delete answers from the number of rows it removed: success
/// when at least one row went, `NotFound` otherwise.
pub fn deleted_or_404(rows_affected: u64) -> (result: Result<(), ApiError>)
    ensures
        result == if rows_affected > 0 {
            Ok::<(), ApiError>(())
        } else {
            Err::<(), ApiError>(ApiError::NotFound)
        },
{
    if rows_affected > 0 {
        Ok(())
    } else {
        Err(ApiError::NotFound)
    }
}

} // verus!
