//! Friendship requests: directed edges that are asked for, accepted or
//! rejected one by one.

use vstd::prelude::*;
use crate::error::ApiError;
use crate::listing::{in_order, is_newer, kept_by, newest_first, select_in_order, Ranked, Selector};
use crate::models::friendship::{Friendship, FriendshipStatus};
use crate::token::Claims;

verus! {

/// The edge from `user_id` to `friend_id` after a request: the stored edge
/// set back to pending where there is one between the two, a new pending
/// edge otherwise.
pub open spec fn requested(
    existing: Option<Friendship>,
    id: i32,
    stamped_at: Option<i64>,
    user_id: i32,
    friend_id: i32,
) -> Friendship {
    match existing {
        Some(edge) if edge.user_id == user_id && edge.friend_id == friend_id => Friendship {
            status: FriendshipStatus::Pending,
            ..edge
        },
        _ => Friendship {
            id,
            user_id,
            friend_id,
            status: FriendshipStatus::Pending,
            created_at: stamped_at,
        },
    }
}

/// Asks for a friendship from the caller to `friend_id`.
///
/// `NotFound` where no such user exists. Otherwise the edge to store:
/// asking again, after any answer, sets the one edge back to pending and
/// makes no second edge.
pub fn add_friend(
    friend_exists: bool,
    existing: Option<Friendship>,
    id: i32,
    stamped_at: Option<i64>,
    claims: &Claims,
    friend_id: i32,
) -> (answer: Result<Friendship, ApiError>)
    ensures
        answer == if friend_exists {
            Ok::<Friendship, ApiError>(
                requested(existing, id, stamped_at, claims.user_id, friend_id),
            )
        } else {
            Err::<Friendship, ApiError>(ApiError::NotFound)
        },
{
    if !friend_exists {
        return Err(ApiError::NotFound);
    }
    let fresh = Friendship {
        id,
        user_id: claims.user_id,
        friend_id,
        status: FriendshipStatus::Pending,
        created_at: stamped_at,
    };
    match existing {
        Some(edge) => {
            if edge.user_id == claims.user_id && edge.friend_id == friend_id {
                Ok(
                    Friendship {
                        id: edge.id,
                        user_id: edge.user_id,
                        friend_id: edge.friend_id,
                        status: FriendshipStatus::Pending,
                        created_at: edge.created_at,
                    },
                )
            } else {
                Ok(fresh)
            }
        },
        None => Ok(fresh),
    }
}

/// The answer to a request on the edge that a lookup by id gave: the edge
/// with the new status and nothing else changed, or `NotFound`. The edge
/// back, if there is one, is not touched.
pub open spec fn answered(found: Option<Friendship>, status: FriendshipStatus) -> Result<
    Friendship,
    ApiError,
> {
    match found {
        Some(edge) => Ok(Friendship { status, ..edge }),
        None => Err(ApiError::NotFound),
    }
}

/// Accepts the friendship request that a lookup by id gave.
pub fn accept_friend(found: Option<Friendship>) -> (answer: Result<Friendship, ApiError>)
    ensures
        answer == answered(found, FriendshipStatus::Accepted),
{
    match found {
        Some(edge) => Ok(
            Friendship {
                id: edge.id,
                user_id: edge.user_id,
                friend_id: edge.friend_id,
                status: FriendshipStatus::Accepted,
                created_at: edge.created_at,
            },
        ),
        None => Err(ApiError::NotFound),
    }
}

/// Rejects the friendship request that a lookup by id gave.
pub fn reject_friend(found: Option<Friendship>) -> (answer: Result<Friendship, ApiError>)
    ensures
        answer == answered(found, FriendshipStatus::Rejected),
{
    match found {
        Some(edge) => Ok(
            Friendship {
                id: edge.id,
                user_id: edge.user_id,
                friend_id: edge.friend_id,
                status: FriendshipStatus::Rejected,
                created_at: edge.created_at,
            },
        ),
        None => Err(ApiError::NotFound),
    }
}

/// A choice among the edges around one user.
#[derive(Clone, Copy, Debug, PartialEq, Eq)]
pub enum EdgeQuery {
    /// The accepted edges that start at the user: their friends.
    FriendsOf(i32),
    /// The pending edges that end at the user: the requests that wait for
    /// their answer.
    PendingFor(i32),
}

impl Selector<Friendship> for EdgeQuery {
    open spec fn keeps(&self, row: &Friendship) -> bool {
        match *self {
            EdgeQuery::FriendsOf(user_id) => row.user_id == user_id && row.status
                == FriendshipStatus::Accepted,
            EdgeQuery::PendingFor(user_id) => row.friend_id == user_id && row.status
                == FriendshipStatus::Pending,
        }
    }

    fn test(&self, row: &Friendship) -> (kept: bool) {
        match *self {
            EdgeQuery::FriendsOf(user_id) => row.user_id == user_id && match row.status {
                FriendshipStatus::Accepted => true,
                _ => false,
            },
            EdgeQuery::PendingFor(user_id) => row.friend_id == user_id && match row.status {
                FriendshipStatus::Pending => true,
                _ => false,
            },
        }
    }
}

impl Ranked for Friendship {
    /// Newest first; among edges of one instant, the higher id first.
    open spec fn rank(&self) -> (int, int) {
        (newest_first(self.created_at), -(self.id as int))
    }

    fn goes_before(&self, other: &Self) -> (earlier: bool) {
        if is_newer(self.created_at, other.created_at) {
            true
        } else if is_newer(other.created_at, self.created_at) {
            false
        } else {
            self.id > other.id
        }
    }
}

/// The accepted edges that start at the caller, newest first. Naming the
/// friends at their far ends, and listing them by name, is left to the
/// store, whose collation decides the order of names.
pub fn get_friends(edges: Vec<Friendship>, claims: &Claims) -> (listed: Vec<Friendship>)
    ensures
        listed@.to_multiset() == edges@.to_multiset().filter(
            kept_by::<Friendship, EdgeQuery>(EdgeQuery::FriendsOf(claims.user_id)),
        ),
        in_order(listed@),
{
    select_in_order(edges, &EdgeQuery::FriendsOf(claims.user_id))
}

/// The pending edges that end at the caller, newest first.
pub fn get_pending_requests(edges: Vec<Friendship>, claims: &Claims) -> (listed: Vec<Friendship>)
    ensures
        listed@.to_multiset() == edges@.to_multiset().filter(
            kept_by::<Friendship, EdgeQuery>(EdgeQuery::PendingFor(claims.user_id)),
        ),
        in_order(listed@),
{
    select_in_order(edges, &EdgeQuery::PendingFor(claims.user_id))
}

} // verus!
