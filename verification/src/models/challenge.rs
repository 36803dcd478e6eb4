//! Challenges between users on a shared route.

use vstd::prelude::*;
use crate::text::str_equals;

verus! {

/// Where a challenge stands: `Pending` at creation, `Active` once accepted,
/// `Completed` at the end.
#[derive(Clone, Copy, Debug, PartialEq, Eq, Structural)]
pub enum ChallengeStatus {
    Pending,
    Active,
    Completed,
}

impl ChallengeStatus {
    /// The word under which the status is stored and sent.
    pub open spec fn name(self) -> Seq<char> {
        match self {
            ChallengeStatus::Pending => "pending"@,
            ChallengeStatus::Active => "active"@,
            ChallengeStatus::Completed => "completed"@,
        }
    }

    /// The word under which the status is stored and sent.
    pub fn as_str(&self) -> (word: &'static str)
        ensures
            word@ == self.name(),
    {
        match self {
            ChallengeStatus::Pending => "pending",
            ChallengeStatus::Active => "active",
            ChallengeStatus::Completed => "completed",
        }
    }

    /// Reads a status word; any other text is no status.
    pub fn parse(word: &str) -> (status: Option<ChallengeStatus>)
        ensures
            match status {
                Some(s) => word@ == s.name(),
                None => forall|s: ChallengeStatus| word@ != s.name(),
            },
    {
        if str_equals(word, "pending") {
            Some(ChallengeStatus::Pending)
        } else if str_equals(word, "active") {
            Some(ChallengeStatus::Active)
        } else if str_equals(word, "completed") {
            Some(ChallengeStatus::Completed)
        } else {
            None
        }
    }
}

/// A stored challenge. `challenged_id == None` marks an open challenge that
/// any user may accept.
#[derive(Clone, Copy, Debug, PartialEq, Eq)]
pub struct Challenge {
    pub id: i32,
    pub route_id: i32,
    pub challenger_id: i32,
    pub challenged_id: Option<i32>,
    pub status: ChallengeStatus,
    pub challenger_time: Option<i64>,
    pub challenged_time: Option<i64>,
    pub winner_id: Option<i32>,
    pub created_at: Option<i64>,
    pub completed_at: Option<i64>,
}

/// The request that opens a challenge.
#[derive(Clone, Copy, Debug, PartialEq, Eq)]
pub struct CreateChallenge {
    pub route_id: i32,
    /// `None` for an open challenge.
    pub challenged_id: Option<i32>,
}

/// A patch to a stored challenge: a field that is `None` leaves the stored
/// value as it is. The status of a completed challenge stays as it is
/// whatever the patch names.
#[derive(Clone, Copy, Debug, PartialEq, Eq)]
pub struct UpdateChallenge {
    pub status: Option<ChallengeStatus>,
    pub challenger_time: Option<i64>,
    pub challenged_time: Option<i64>,
}

} // verus!
