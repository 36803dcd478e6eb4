//! The challenge engine: creation, acceptance, completion and the winner.

use vstd::prelude::*;
use crate::error::ApiError;
use crate::listing::{in_order, is_newer, kept_by, newest_first, select_in_order, Ranked, Selector};
use crate::models::challenge::{Challenge, ChallengeStatus, CreateChallenge, UpdateChallenge};
use crate::leaderboard::{is_leaderboard, leaderboard, Board};
use crate::models::score::{LeaderboardEntry, Score};
use crate::models::user::User;
use crate::token::Claims;

verus! {

/// Who wins with the two given times: the challenger with the strictly
/// smaller time, the challenged otherwise, and nobody unless both times are
/// there.
pub open spec fn winner_of(
    challenger_id: i32,
    challenged_id: Option<i32>,
    challenger_time: Option<i64>,
    challenged_time: Option<i64>,
) -> Option<i32> {
    match (challenger_time, challenged_time) {
        (Some(mine), Some(theirs)) => if mine < theirs {
            Some(challenger_id)
        } else {
            challenged_id
        },
        _ => None,
    }
}

/// The value that a patch leaves in a field.
pub open spec fn merged<T>(patch: Option<T>, stored: Option<T>) -> Option<T> {
    match patch {
        Some(value) => Some(value),
        None => stored,
    }
}

/// The status that a completion request leaves behind: the status that the
/// request names, and the stored one where it names none. `Completed` alone
/// is terminal: a completed challenge stays completed whatever the request
/// names.
pub open spec fn merged_status(stored: ChallengeStatus, named: Option<ChallengeStatus>) -> ChallengeStatus {
    match named {
        Some(status) => if stored == ChallengeStatus::Completed {
            stored
        } else {
            status
        },
        None => stored,
    }
}

impl Challenge {
    /// A winner is recorded only together with both times, and is then the
    /// one whom the times name.
    pub open spec fn wf(self) -> bool {
        self.winner_id is Some ==> {
            &&& self.challenger_time is Some
            &&& self.challenged_time is Some
            &&& self.winner_id == winner_of(
                self.challenger_id,
                self.challenged_id,
                self.challenger_time,
                self.challenged_time,
            )
        }
    }

    /// The challenge as it is first stored: pending, without times, winner
    /// or completion.
    pub open spec fn opened(
        id: i32,
        stamped_at: Option<i64>,
        challenger_id: i32,
        request: CreateChallenge,
    ) -> Challenge {
        Challenge {
            id,
            route_id: request.route_id,
            challenger_id,
            challenged_id: request.challenged_id,
            status: ChallengeStatus::Pending,
            challenger_time: None,
            challenged_time: None,
            winner_id: None,
            created_at: stamped_at,
            completed_at: None,
        }
    }

    /// The challenge once accepted: active, and otherwise as it was.
    pub open spec fn accepted(self) -> Challenge {
        Challenge { status: ChallengeStatus::Active, ..self }
    }

    /// The challenge after a completion request at the instant `now`.
    ///
    /// The winner is determined from the times of the request alone, before
    /// anything is merged. Status and times are merged field by field: a
    /// field that the request sets takes its value, any other keeps the
    /// stored one. Only the status of a completed challenge is held, see
    /// [`merged_status`]. The completion instant is stamped only when the
    /// request itself names the status `Completed`.
    pub open spec fn completed(self, patch: UpdateChallenge, now: i64) -> Challenge {
        Challenge {
            status: merged_status(self.status, patch.status),
            challenger_time: merged(patch.challenger_time, self.challenger_time),
            challenged_time: merged(patch.challenged_time, self.challenged_time),
            winner_id: winner_of(
                self.challenger_id,
                self.challenged_id,
                patch.challenger_time,
                patch.challenged_time,
            ),
            completed_at: if patch.status == Some(ChallengeStatus::Completed) {
                Some(now)
            } else {
                self.completed_at
            },
            ..self
        }
    }

    /// Whether the challenge is open: pending and addressed to nobody.
    pub open spec fn is_open(self) -> bool {
        self.status == ChallengeStatus::Pending && self.challenged_id is None
    }

    /// Accepts the challenge in place.
    ///
    /// A pending challenge becomes active. Any other challenge, an active
    /// one too, is answered with `NotFound` and stays exactly as it was.
    pub fn accept(&mut self) -> (answer: Result<(), ApiError>)
        ensures
            old(self).status == ChallengeStatus::Pending ==> answer is Ok && *final(self) == old(
                self,
            ).accepted(),
            old(self).status != ChallengeStatus::Pending ==> answer == Err::<(), ApiError>(
                ApiError::NotFound,
            ) && *final(self) == *old(self),
            old(self).wf() ==> final(self).wf(),
    {
        match self.status {
            ChallengeStatus::Pending => {
                self.status = ChallengeStatus::Active;
                Ok(())
            },
            _ => Err(ApiError::NotFound),
        }
    }

    /// Applies a completion request in place, at the instant `now`.
    pub fn complete(&mut self, patch: UpdateChallenge, now: i64)
        ensures
            *final(self) == old(self).completed(patch, now),
            final(self).wf(),
    {
        let winner = match (patch.challenger_time, patch.challenged_time) {
            (Some(mine), Some(theirs)) => if mine < theirs {
                Some(self.challenger_id)
            } else {
                self.challenged_id
            },
            _ => None,
        };
        if let Some(status) = patch.status {
            match self.status {
                ChallengeStatus::Completed => {},
                _ => {
                    self.status = status;
                },
            }
            match status {
                ChallengeStatus::Completed => {
                    self.completed_at = Some(now);
                },
                _ => {},
            }
        }
        if let Some(time) = patch.challenger_time {
            self.challenger_time = Some(time);
        }
        if let Some(time) = patch.challenged_time {
            self.challenged_time = Some(time);
        }
        self.winner_id = winner;
    }
}

/// Opens a challenge of the caller on a route. It always starts pending;
/// nothing keeps several challenges from standing on one route.
pub fn create_challenge(
    id: i32,
    stamped_at: Option<i64>,
    claims: &Claims,
    new_challenge: CreateChallenge,
) -> (challenge: Challenge)
    ensures
        challenge == Challenge::opened(id, stamped_at, claims.user_id, new_challenge),
        challenge.wf(),
{
    Challenge {
        id,
        route_id: new_challenge.route_id,
        challenger_id: claims.user_id,
        challenged_id: new_challenge.challenged_id,
        status: ChallengeStatus::Pending,
        challenger_time: None,
        challenged_time: None,
        winner_id: None,
        created_at: stamped_at,
        completed_at: None,
    }
}

/// The challenge that a lookup by id gave, or `NotFound`.
pub fn get_challenge(found: Option<Challenge>) -> (answer: Result<Challenge, ApiError>)
    ensures
        answer == match found {
            Some(challenge) => Ok::<Challenge, ApiError>(challenge),
            None => Err::<Challenge, ApiError>(ApiError::NotFound),
        },
{
    match found {
        Some(challenge) => Ok(challenge),
        None => Err(ApiError::NotFound),
    }
}

/// Accepts the challenge that a lookup by id gave.
///
/// The accepted challenge where one was found and is pending; `NotFound`
/// where none was found or the one found is not pending. Whether the caller
/// is the one who was challenged is not checked here.
pub fn accept_challenge(found: Option<Challenge>) -> (answer: Result<Challenge, ApiError>)
    ensures
        answer == match found {
            Some(challenge) => if challenge.status == ChallengeStatus::Pending {
                Ok::<Challenge, ApiError>(challenge.accepted())
            } else {
                Err::<Challenge, ApiError>(ApiError::NotFound)
            },
            None => Err::<Challenge, ApiError>(ApiError::NotFound),
        },
{
    match found {
        Some(challenge) => {
            let mut challenge = challenge;
            match challenge.accept() {
                Ok(()) => Ok(challenge),
                Err(e) => Err(e),
            }
        },
        None => Err(ApiError::NotFound),
    }
}

/// Completes the challenge that a lookup by id gave, at the instant `now`:
/// the merged challenge, or `NotFound` where none was found. A challenge
/// that was completed before stays completed, whatever the request names.
pub fn complete_challenge(found: Option<Challenge>, update: UpdateChallenge, now: i64) -> (answer:
    Result<Challenge, ApiError>)
    ensures
        answer == match found {
            Some(challenge) => Ok::<Challenge, ApiError>(challenge.completed(update, now)),
            None => Err::<Challenge, ApiError>(ApiError::NotFound),
        },
        answer matches Ok(challenge) ==> challenge.wf(),
{
    match found {
        Some(challenge) => {
            let mut challenge = challenge;
            challenge.complete(update, now);
            Ok(challenge)
        },
        None => Err(ApiError::NotFound),
    }
}

/// The choice of the open challenges.
#[derive(Clone, Copy, Debug, PartialEq, Eq)]
pub struct OpenChallenges;

impl Selector<Challenge> for OpenChallenges {
    open spec fn keeps(&self, row: &Challenge) -> bool {
        row.is_open()
    }

    fn test(&self, row: &Challenge) -> (kept: bool) {
        let pending = match row.status {
            ChallengeStatus::Pending => true,
            _ => false,
        };
        pending && row.challenged_id.is_none()
    }
}

impl Ranked for Challenge {
    /// Newest first; among challenges of one instant, the higher id first.
    open spec fn rank(&self) -> (int, int) {
        (newest_first(self.created_at), -(self.id as int))
    }

    fn goes_before(&self, other: &Self) -> (earlier: bool) {
        if is_newer(self.created_at, other.created_at) {
            true
        } else if is_newer(other.created_at, self.created_at) {
            false
        } else {
            self.id > other.id
        }
    }
}

/// The open challenges, newest first: those that are pending and addressed
/// to nobody.
pub fn get_available_challenges(challenges: Vec<Challenge>) -> (listed: Vec<Challenge>)
    ensures
        listed@.to_multiset() == challenges@.to_multiset().filter(
            kept_by::<Challenge, OpenChallenges>(OpenChallenges),
        ),
        in_order(listed@),
{
    select_in_order(challenges, &OpenChallenges)
}

/// With the challenger's time strictly below the other, the challenger wins;
/// with one time missing there is no winner, whatever the other time is.
pub proof fn winner_rule(
    stored: Challenge,
    patch: UpdateChallenge,
    now: i64,
)
    ensures
        patch.challenger_time is Some && patch.challenged_time is Some
            && patch.challenger_time->0 < patch.challenged_time->0 ==> stored.completed(
            patch,
            now,
        ).winner_id == Some(stored.challenger_id),
        patch.challenger_time is Some && patch.challenged_time is Some
            && patch.challenger_time->0 >= patch.challenged_time->0 ==> stored.completed(
            patch,
            now,
        ).winner_id == stored.challenged_id,
        patch.challenger_time is None || patch.challenged_time is None ==> stored.completed(
            patch,
            now,
        ).winner_id is None,
        stored.completed(patch, now).wf(),
{
}

/// A completion that does not itself set the status to `Completed` leaves
/// the completion instant as it was.
pub proof fn completion_stamp_rule(stored: Challenge, patch: UpdateChallenge, now: i64)
    ensures
        patch.status == Some(ChallengeStatus::Completed) ==> stored.completed(
            patch,
            now,
        ).completed_at == Some(now),
        patch.status != Some(ChallengeStatus::Completed) ==> stored.completed(
            patch,
            now,
        ).completed_at == stored.completed_at,
{
}

/// `Completed` is terminal: a completed challenge stays completed under
/// every completion request, whatever status it names.
pub proof fn completed_is_kept(stored: Challenge, patch: UpdateChallenge, now: i64)
    requires
        stored.status == ChallengeStatus::Completed,
    ensures
        stored.completed(patch, now).status == ChallengeStatus::Completed,
{
}

/// The status after a completion request, case by case: the stored one
/// where the request names none or the challenge was completed, the named
/// one otherwise. A request that names `Completed` always completes, and is
/// the only one that stamps.
pub proof fn status_is_merged(stored: Challenge, patch: UpdateChallenge, now: i64)
    ensures
        patch.status is None ==> stored.completed(patch, now).status == stored.status,
        patch.status is Some && stored.status != ChallengeStatus::Completed ==> stored.completed(
            patch,
            now,
        ).status == patch.status->0,
        patch.status == Some(ChallengeStatus::Completed) ==> stored.completed(patch, now).status
            == ChallengeStatus::Completed,
        stored.completed(patch, now).completed_at != stored.completed_at ==> stored.completed(
            patch,
            now,
        ).status == ChallengeStatus::Completed,
{
}

/// Accepting twice is accepting once: the second attempt finds no pending
/// challenge and changes nothing.
pub proof fn accept_is_gated(challenge: Challenge)
    ensures
        challenge.accepted().status != ChallengeStatus::Pending,
        challenge.accepted().wf() == challenge.wf(),
{
}

/// The leaderboard of a route: for each user with a score on it, their
/// lowest time, lowest first, at most a hundred rows.
pub fn get_route_leaderboard(scores: &Vec<Score>, users: &Vec<User>, route_id: i32) -> (listed:
    Vec<LeaderboardEntry>)
    ensures
        is_leaderboard(scores@, users@, Board::Route(route_id), listed@),
{
    leaderboard(scores, users, Board::Route(route_id))
}

/// The leaderboard of top speeds over all routes: for each user with a
/// score that shows a top speed, their highest, highest first, at most a
/// hundred rows.
pub fn get_global_speed_leaderboard(scores: &Vec<Score>, users: &Vec<User>) -> (listed: Vec<
    LeaderboardEntry,
>)
    ensures
        is_leaderboard(scores@, users@, Board::GlobalSpeed, listed@),
{
    leaderboard(scores, users, Board::GlobalSpeed)
}

} // verus!
