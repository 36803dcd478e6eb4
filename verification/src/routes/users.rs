//! Users as plain rows: created, read and deleted by id.

use vstd::prelude::*;
use crate::error::ApiError;
use crate::models::user::{CreateUser, User, UserView};

verus! {

/// The user that the store holds once it has given the new user the id `id`.
pub fn create_user(id: i32, new_user: CreateUser) -> (user: User)
    ensures
        user@ == (UserView { id, username: new_user.username@, email: new_user.email@ }),
{
    User { id, username: new_user.username, email: new_user.email }
}

/// The user that a lookup by id gave, or `NotFound`.
pub fn get_user(found: Option<User>) -> (answer: Result<User, ApiError>)
    ensures
        answer == match found {
            Some(user) => Ok::<User, ApiError>(user),
            None => Err::<User, ApiError>(ApiError::NotFound),
        },
{
    match found {
        Some(user) => Ok(user),
        None => Err(ApiError::NotFound),
    }
}

/// What deleting a user answers, from the number of rows that went.
pub fn delete_user(rows_affected: u64) -> (answer: Result<(), ApiError>)
    ensures
        answer == if rows_affected > 0 {
            Ok::<(), ApiError>(())
        } else {
            Err::<(), ApiError>(ApiError::NotFound)
        },
{
    crate::error::deleted_or_404(rows_affected)
}

/// How a friend request between two users by their ids came out.
#[derive(Clone, Copy, Debug, PartialEq, Eq, Structural)]
pub enum FriendRequestOutcome {
    /// A new pending edge was stored.
    Sent,
    /// The edge was there already and was left as it is.
    AlreadyExists,
}

impl FriendRequestOutcome {
    /// The message with which the outcome is answered.
    pub fn message(&self) -> (text: &'static str)
        ensures
            text@ == match *self {
                FriendRequestOutcome::Sent => "Friend request sent successfully"@,
                FriendRequestOutcome::AlreadyExists => "Friend request already exists"@,
            },
    {
        match self {
            FriendRequestOutcome::Sent => "Friend request sent successfully",
            FriendRequestOutcome::AlreadyExists => "Friend request already exists",
        }
    }
}

/// Whether a friend request between two users may be stored: `NotFound`
/// unless both users exist.
pub fn add_friend(user_exists: bool, friend_exists: bool) -> (answer: Result<(), ApiError>)
    ensures
        answer == if user_exists && friend_exists {
            Ok::<(), ApiError>(())
        } else {
            Err::<(), ApiError>(ApiError::NotFound)
        },
{
    if !user_exists || !friend_exists {
        Err(ApiError::NotFound)
    } else {
        Ok(())
    }
}

/// How the request came out, from the number of rows that the store
/// created for it.
pub fn friend_request_outcome(rows_affected: u64) -> (outcome: FriendRequestOutcome)
    ensures
        outcome == if rows_affected > 0 {
            FriendRequestOutcome::Sent
        } else {
            FriendRequestOutcome::AlreadyExists
        },
{
    if rows_affected > 0 {
        FriendRequestOutcome::Sent
    } else {
        FriendRequestOutcome::AlreadyExists
    }
}

} // verus!
