//! Timed runs and the leaderboard rows made from them.

use vstd::prelude::*;

verus! {

/// One submitted run. A score never changes once stored; a user may hold
/// several on one route.
#[derive(Clone, Copy, Debug, PartialEq, Eq)]
pub struct Score {
    pub id: i32,
    pub route_id: i32,
    pub user_id: i32,
    pub time_seconds: i64,
    pub max_speed_kmh: Option<i64>,
    pub avg_speed_kmh: Option<i64>,
    pub max_g_force: Option<i64>,
    pub max_inclination_degrees: Option<i64>,
    pub max_sound_db: Option<i64>,
    pub created_at: Option<i64>,
}

/// The measurements of a run as submitted; route and user come from the
/// request path and the caller's identity.
#[derive(Clone, Copy, Debug, PartialEq, Eq)]
pub struct CreateScore {
    pub time_seconds: i64,
    pub max_speed_kmh: Option<i64>,
    pub avg_speed_kmh: Option<i64>,
    pub max_g_force: Option<i64>,
    pub max_inclination_degrees: Option<i64>,
    pub max_sound_db: Option<i64>,
}

/// One row of a leaderboard: a user and the score that stands for them.
#[derive(Debug, PartialEq, Eq)]
pub struct LeaderboardEntry {
    pub user_id: i32,
    pub username: String,
    pub time_seconds: i64,
    pub max_speed_kmh: Option<i64>,
    pub created_at: Option<i64>,
}

/// The mathematical value of a [`LeaderboardEntry`].
pub struct LeaderboardEntryView {
    pub user_id: i32,
    pub username: Seq<char>,
    pub time_seconds: i64,
    pub max_speed_kmh: Option<i64>,
    pub created_at: Option<i64>,
}

impl View for LeaderboardEntry {
    type V = LeaderboardEntryView;

    open spec fn view(&self) -> LeaderboardEntryView {
        LeaderboardEntryView {
            user_id: self.user_id,
            username: self.username@,
            time_seconds: self.time_seconds,
            max_speed_kmh: self.max_speed_kmh,
            created_at: self.created_at,
        }
    }
}

} // verus!
