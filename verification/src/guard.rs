//! The ownership guard: who may change a resource.

use vstd::prelude::*;
use crate::error::ApiError;

verus! {

/// The guard's answer.
#[derive(Clone, Copy, Debug, PartialEq, Eq, Structural)]
pub enum Decision {
    Allow,
    Deny,
}

/// Allows a mutation exactly when the caller is the owner of the resource.
pub fn authorize_mutation(resource_owner_id: i32, caller_id: i32) -> (decision: Decision)
    ensures
        decision == if resource_owner_id == caller_id {
            Decision::Allow
        } else {
            Decision::Deny
        },
{
    if resource_owner_id == caller_id {
        Decision::Allow
    } else {
        Decision::Deny
    }
}

/// What a mutation is answered with before anything is written, from the
/// owner that the lookup of the resource gave.
///
/// The lookup comes first: an id that does not resolve is `NotFound`, also
/// for the caller who would have owned it; a resource of somebody else is
/// `Forbidden`; the owner may go on.
pub open spec fn mutation_gate(owner: Option<i32>, caller_id: i32) -> Result<(), ApiError> {
    match owner {
        None => Err(ApiError::NotFound),
        Some(owner_id) => if owner_id == caller_id {
            Ok(())
        } else {
            Err(ApiError::Forbidden)
        },
    }
}

/// Applies the guard to the outcome of a lookup.
pub fn require_owner(owner: Option<i32>, caller_id: i32) -> (answer: Result<(), ApiError>)
    ensures
        answer == mutation_gate(owner, caller_id),
{
    match owner {
        None => Err(ApiError::NotFound),
        Some(owner_id) => match authorize_mutation(owner_id, caller_id) {
            Decision::Allow => Ok(()),
            Decision::Deny => Err(ApiError::Forbidden),
        },
    }
}

/// Somebody else's resource is always `Forbidden`, the owner's own never is,
/// and neither answer depends on anything but the two ids.
pub proof fn only_the_owner_passes(owner_id: i32, caller_id: i32)
    ensures
        owner_id != caller_id ==> mutation_gate(Some(owner_id), caller_id) == Err::<(), ApiError>(
            ApiError::Forbidden,
        ),
        owner_id == caller_id ==> mutation_gate(Some(owner_id), caller_id) == Ok::<(), ApiError>(
            (),
        ),
{
}

} // verus!
