//! Directed friendship edges.

use vstd::prelude::*;
use crate::text::str_equals;

verus! {

/// Where a friendship request stands.
#[derive(Clone, Copy, Debug, PartialEq, Eq, Structural)]
pub enum FriendshipStatus {
    Pending,
    Accepted,
    Rejected,
}

impl FriendshipStatus {
    /// The word under which the status is stored and sent.
    pub open spec fn name(self) -> Seq<char> {
        match self {
            FriendshipStatus::Pending => "pending"@,
            FriendshipStatus::Accepted => "accepted"@,
            FriendshipStatus::Rejected => "rejected"@,
        }
    }

    /// The word under which the status is stored and sent.
    pub fn as_str(&self) -> (word: &'static str)
        ensures
            word@ == self.name(),
    {
        match self {
            FriendshipStatus::Pending => "pending",
            FriendshipStatus::Accepted => "accepted",
            FriendshipStatus::Rejected => "rejected",
        }
    }

    /// Reads a status word; any other text is no status.
    pub fn parse(word: &str) -> (status: Option<FriendshipStatus>)
        ensures
            match status {
                Some(s) => word@ == s.name(),
                None => forall|s: FriendshipStatus| word@ != s.name(),
            },
    {
        if str_equals(word, "pending") {
            Some(FriendshipStatus::Pending)
        } else if str_equals(word, "accepted") {
            Some(FriendshipStatus::Accepted)
        } else if str_equals(word, "rejected") {
            Some(FriendshipStatus::Rejected)
        } else {
            None
        }
    }
}

/// One directed edge from `user_id` to `friend_id`. The edge back, if there
/// is one, is a row of its own.
#[derive(Clone, Copy, Debug, PartialEq, Eq)]
pub struct Friendship {
    pub id: i32,
    pub user_id: i32,
    pub friend_id: i32,
    pub status: FriendshipStatus,
    pub created_at: Option<i64>,
}

/// A friend as listed: the other user and the state of the edge.
#[derive(Debug, PartialEq, Eq)]
pub struct FriendInfo {
    pub id: i32,
    pub username: String,
    pub email: String,
    pub status: FriendshipStatus,
}

/// The mathematical value of a [`FriendInfo`].
pub struct FriendInfoView {
    pub id: i32,
    pub username: Seq<char>,
    pub email: Seq<char>,
    pub status: FriendshipStatus,
}

impl View for FriendInfo {
    type V = FriendInfoView;

    open spec fn view(&self) -> FriendInfoView {
        FriendInfoView {
            id: self.id,
            username: self.username@,
            email: self.email@,
            status: self.status,
        }
    }
}

} // verus!
