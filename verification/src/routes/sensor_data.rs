//! Sensor telemetry: single samples and the all-or-nothing bulk upload.
//!
//! A bulk upload talks to the store in steps. The engine holds the state of
//! the conversation and says what to ask next; the caller performs each step
//! and hands back what the store replied.

use vstd::prelude::*;
use crate::error::ApiError;
use crate::listing::{in_order, kept_by, select_in_order, Ranked, Selector};
use crate::models::sensor_data::{CreateSensorData, SensorData};

verus! {

/// What the store replied to the step that was asked of it.
#[derive(Clone, Copy, Debug, PartialEq, Eq, Structural)]
pub enum StoreReply {
    /// Whether the parent score exists.
    ScoreExists(bool),
    /// The transaction is open.
    Opened,
    /// One row went in; the number of rows the store counted for it.
    Inserted(u64),
    /// The transaction is committed.
    Committed,
    /// The step failed.
    Failed,
}

/// What the caller does next.
#[derive(Clone, Copy, Debug, PartialEq, Eq, Structural)]
pub enum BulkAction {
    /// Ask whether the parent score exists.
    CheckScore,
    /// Open a transaction.
    Begin,
    /// Insert the row at this position of the batch, inside the transaction.
    Insert(usize),
    /// Commit the transaction.
    Commit,
    /// Roll back whatever is open and answer with the error.
    Abort(ApiError),
    /// Answer with the number of rows stored.
    Finish(u64),
}

/// Where a bulk upload of `total` rows stands.
#[derive(Clone, Copy, Debug, PartialEq, Eq, Structural)]
pub enum BulkState {
    /// Waiting to learn whether the parent score exists.
    CheckingScore { total: usize },
    /// Waiting for the transaction to open.
    Opening { total: usize },
    /// Waiting for row `next` to go in, with `inserted` rows counted so far.
    Inserting { total: usize, next: usize, inserted: u64 },
    /// Waiting for the commit.
    Committing { inserted: u64 },
    /// Over: every later reply is answered with `last` again.
    Done { last: BulkAction },
}

/// The state that an upload ends in when it answers with `error`.
pub open spec fn aborted(error: ApiError) -> (BulkState, BulkAction) {
    (BulkState::Done { last: BulkAction::Abort(error) }, BulkAction::Abort(error))
}

/// The step of the conversation: the next state and what to do next.
///
/// A reply that the state did not wait for, `Failed` among them, ends the
/// upload with `Internal`; a missing score ends it with `NotFound`. The
/// commit is asked for once every row has gone in.
pub open spec fn transition(state: BulkState, reply: StoreReply) -> (BulkState, BulkAction) {
    match state {
        BulkState::CheckingScore { total } => match reply {
            StoreReply::ScoreExists(true) => (BulkState::Opening { total }, BulkAction::Begin),
            StoreReply::ScoreExists(false) => aborted(ApiError::NotFound),
            _ => aborted(ApiError::Internal),
        },
        BulkState::Opening { total } => match reply {
            StoreReply::Opened => if total == 0 {
                (BulkState::Committing { inserted: 0 }, BulkAction::Commit)
            } else {
                (BulkState::Inserting { total, next: 0, inserted: 0 }, BulkAction::Insert(0))
            },
            _ => aborted(ApiError::Internal),
        },
        BulkState::Inserting { total, next, inserted } => match reply {
            StoreReply::Inserted(rows) => if inserted + rows > u64::MAX {
                aborted(ApiError::Internal)
            } else if next + 1 < total {
                (
                    BulkState::Inserting {
                        total,
                        next: (next + 1) as usize,
                        inserted: (inserted + rows) as u64,
                    },
                    BulkAction::Insert((next + 1) as usize),
                )
            } else {
                (BulkState::Committing { inserted: (inserted + rows) as u64 }, BulkAction::Commit)
            },
            _ => aborted(ApiError::Internal),
        },
        BulkState::Committing { inserted } => match reply {
            StoreReply::Committed => (
                BulkState::Done { last: BulkAction::Finish(inserted) },
                BulkAction::Finish(inserted),
            ),
            _ => aborted(ApiError::Internal),
        },
        BulkState::Done { last } => (state, last),
    }
}

/// Opens the conversation for a batch of `total` rows.
pub fn begin_bulk_upload(total: usize) -> (start: (BulkState, BulkAction))
    ensures
        start == (BulkState::CheckingScore { total }, BulkAction::CheckScore),
{
    (BulkState::CheckingScore { total }, BulkAction::CheckScore)
}

/// Takes the store's reply to the last step and says what to do next.
pub fn upload_bulk_sensor_data(state: BulkState, reply: StoreReply) -> (next: (
    BulkState,
    BulkAction,
))
    ensures
        next == transition(state, reply),
{
    let failed = (
        BulkState::Done { last: BulkAction::Abort(ApiError::Internal) },
        BulkAction::Abort(ApiError::Internal),
    );
    match state {
        BulkState::CheckingScore { total } => match reply {
            StoreReply::ScoreExists(true) => (BulkState::Opening { total }, BulkAction::Begin),
            StoreReply::ScoreExists(false) => (
                BulkState::Done { last: BulkAction::Abort(ApiError::NotFound) },
                BulkAction::Abort(ApiError::NotFound),
            ),
            _ => failed,
        },
        BulkState::Opening { total } => match reply {
            StoreReply::Opened => if total == 0 {
                (BulkState::Committing { inserted: 0 }, BulkAction::Commit)
            } else {
                (BulkState::Inserting { total, next: 0, inserted: 0 }, BulkAction::Insert(0))
            },
            _ => failed,
        },
        BulkState::Inserting { total, next, inserted } => match reply {
            StoreReply::Inserted(rows) => {
                if rows > u64::MAX - inserted {
                    failed
                } else if next < total && next + 1 < total {
                    (
                        BulkState::Inserting { total, next: next + 1, inserted: inserted + rows },
                        BulkAction::Insert(next + 1),
                    )
                } else {
                    (BulkState::Committing { inserted: inserted + rows }, BulkAction::Commit)
                }
            },
            _ => failed,
        },
        BulkState::Committing { inserted } => match reply {
            StoreReply::Committed => (
                BulkState::Done { last: BulkAction::Finish(inserted) },
                BulkAction::Finish(inserted),
            ),
            _ => failed,
        },
        BulkState::Done { last } => (state, last),
    }
}

/// The state after a whole sequence of replies.
pub open spec fn state_after(state: BulkState, replies: Seq<StoreReply>) -> BulkState
    decreases replies.len(),
{
    if replies.len() == 0 {
        state
    } else {
        transition(state_after(state, replies.drop_last()), replies.last()).0
    }
}

/// The rows that the store counted over the replies from position `from` up
/// to position `to`; a reply that is no insertion counts nothing.
pub open spec fn rows_counted(replies: Seq<StoreReply>, from: int, to: int) -> int
    decreases to - from,
{
    if to <= from {
        0
    } else {
        rows_counted(replies, from, to - 1) + match replies[to - 1] {
            StoreReply::Inserted(rows) => rows as int,
            _ => 0,
        }
    }
}

/// The reply that a run without failure holds at position `p`: the score
/// exists, the transaction opens, each of the `total` rows goes in, the
/// commit succeeds.
pub open spec fn expected(total: usize, p: int, reply: StoreReply) -> bool {
    if p == 0 {
        reply == StoreReply::ScoreExists(true)
    } else if p == 1 {
        reply == StoreReply::Opened
    } else if p < total + 2 {
        reply is Inserted
    } else {
        reply == StoreReply::Committed
    }
}

/// The replies of an upload in which nothing went wrong.
pub open spec fn clean_run(total: usize, replies: Seq<StoreReply>) -> bool {
    &&& replies.len() >= total + 3
    &&& forall|p: int| 0 <= p < total + 3 ==> expected(total, p, #[trigger] replies[p])
}

/// The replies so far are those of a run without failure.
pub open spec fn clean_so_far(total: usize, replies: Seq<StoreReply>) -> bool {
    forall|p: int| 0 <= p < replies.len() ==> expected(total, p, #[trigger] replies[p])
}

/// The upload went wrong at position `p`: the reply there is not the one of a
/// run without failure, or the count of rows left the range of `u64` there.
pub open spec fn broken_at(total: usize, replies: Seq<StoreReply>, p: int) -> bool {
    &&& 0 <= p < replies.len()
    &&& p < total + 3
    &&& (!expected(total, p, replies[p]) || (2 <= p && rows_counted(replies, 2, p + 1)
        > u64::MAX))
}

/// What ties a state to the replies that led to it.
pub open spec fn reached(total: usize, replies: Seq<StoreReply>, state: BulkState) -> bool {
    match state {
        BulkState::CheckingScore { total: t } => t == total && replies.len() == 0,
        BulkState::Opening { total: t } => {
            &&& t == total
            &&& replies.len() == 1
            &&& clean_so_far(total, replies)
        },
        BulkState::Inserting { total: t, next, inserted } => {
            &&& t == total
            &&& next < total
            &&& replies.len() == next + 2
            &&& clean_so_far(total, replies)
            &&& inserted == rows_counted(replies, 2, next + 2)
        },
        BulkState::Committing { inserted } => {
            &&& replies.len() == total + 2
            &&& clean_so_far(total, replies)
            &&& inserted == rows_counted(replies, 2, total + 2)
        },
        BulkState::Done { last } => match last {
            BulkAction::Finish(count) => {
                &&& clean_run(total, replies)
                &&& count == rows_counted(replies, 2, total + 2)
            },
            BulkAction::Abort(_) => exists|p: int| broken_at(total, replies, p),
            _ => false,
        },
    }
}

/// The count over a range depends on the replies of that range alone.
pub proof fn rows_counted_prefix(a: Seq<StoreReply>, b: Seq<StoreReply>, from: int, to: int)
    requires
        0 <= from,
        to <= a.len(),
        to <= b.len(),
        forall|i: int| from <= i < to ==> a[i] == b[i],
    ensures
        rows_counted(a, from, to) == rows_counted(b, from, to),
    decreases to - from,
{
    if to > from {
        rows_counted_prefix(a, b, from, to - 1);
    }
}

/// The count never goes down as the range grows.
pub proof fn rows_counted_grows(replies: Seq<StoreReply>, from: int, mid: int, to: int)
    requires
        from <= mid <= to,
    ensures
        0 <= rows_counted(replies, from, mid) <= rows_counted(replies, from, to),
    decreases to - from,
{
    if mid < to {
        rows_counted_grows(replies, from, mid, to - 1);
    } else if from < mid {
        rows_counted_grows(replies, from, mid - 1, to - 1);
    }
}

/// Every state that a run from the start passes through is tied to the
/// replies so far.
pub proof fn run_is_reached(total: usize, replies: Seq<StoreReply>)
    ensures
        reached(total, replies, state_after(BulkState::CheckingScore { total }, replies)),
    decreases replies.len(),
{
    let start = BulkState::CheckingScore { total };
    if replies.len() > 0 {
        let before = replies.drop_last();
        let reply = replies.last();
        let n = before.len() as int;
        run_is_reached(total, before);
        let state = state_after(start, before);
        assert(forall|i: int| 0 <= i < n ==> before[i] == replies[i]);
        assert(replies[n] == reply);
        match state {
            BulkState::CheckingScore { .. } => {
                if reply != StoreReply::ScoreExists(true) {
                    assert(broken_at(total, replies, 0));
                }
            },
            BulkState::Opening { .. } => {
                assert(expected(total, 0, before[0]));
                if reply == StoreReply::Opened {
                    assert(rows_counted(replies, 2, 2) == 0);
                } else {
                    assert(broken_at(total, replies, 1));
                }
            },
            BulkState::Inserting { next: row, inserted, .. } => {
                rows_counted_prefix(before, replies, 2, n);
                assert forall|p: int| 0 <= p < n implies expected(
                    total,
                    p,
                    #[trigger] replies[p],
                ) by {
                    assert(expected(total, p, before[p]));
                }
                if reply is Inserted {
                    assert(rows_counted(replies, 2, n + 1) == inserted + reply->Inserted_0);
                    if inserted + reply->Inserted_0 > u64::MAX {
                        assert(broken_at(total, replies, n));
                    }
                } else {
                    assert(broken_at(total, replies, n));
                }
            },
            BulkState::Committing { .. } => {
                rows_counted_prefix(before, replies, 2, n);
                assert forall|p: int| 0 <= p < n implies expected(
                    total,
                    p,
                    #[trigger] replies[p],
                ) by {
                    assert(expected(total, p, before[p]));
                }
                if reply != StoreReply::Committed {
                    assert(broken_at(total, replies, n));
                }
            },
            BulkState::Done { last } => {
                match last {
                    BulkAction::Finish(_) => {
                        rows_counted_prefix(before, replies, 2, total + 2);
                        assert forall|p: int| 0 <= p < total + 3 implies expected(
                            total,
                            p,
                            #[trigger] replies[p],
                        ) by {
                            assert(expected(total, p, before[p]));
                        }
                    },
                    BulkAction::Abort(_) => {
                        let p = choose|p: int| broken_at(total, before, p);
                        if 2 <= p {
                            rows_counted_prefix(before, replies, 2, p + 1);
                        }
                        assert(broken_at(total, replies, p));
                    },
                    _ => {},
                }
            },
        }
    }
}

/// All or nothing, first half: an upload answers with a count only after a
/// run in which the score existed, the transaction opened, every single row
/// went in and the commit succeeded; the count is the sum of what the store
/// counted for the rows.
pub proof fn finish_needs_every_row(total: usize, replies: Seq<StoreReply>, count: u64)
    requires
        state_after(BulkState::CheckingScore { total }, replies) == (BulkState::Done {
            last: BulkAction::Finish(count),
        }),
    ensures
        clean_run(total, replies),
        count == rows_counted(replies, 2, total + 2),
{
    run_is_reached(total, replies);
}

/// All or nothing, second half: one reply that is not the one of a run
/// without failure ends the upload with an abort, whatever the other replies
/// are, and so with a rollback of whatever was open.
pub proof fn failure_aborts_the_batch(total: usize, replies: Seq<StoreReply>, p: int)
    requires
        0 <= p < replies.len(),
        p < total + 3,
        !expected(total, p, replies[p]),
    ensures
        state_after(BulkState::CheckingScore { total }, replies) is Done,
        state_after(BulkState::CheckingScore { total }, replies)->last is Abort,
{
    run_is_reached(total, replies);
}

/// Success is owed: after a run without failure whose count stays within
/// `u64`, the upload answers with that count.
pub proof fn clean_run_finishes(total: usize, replies: Seq<StoreReply>)
    requires
        clean_run(total, replies),
        rows_counted(replies, 2, total + 2) <= u64::MAX,
    ensures
        state_after(BulkState::CheckingScore { total }, replies) == (BulkState::Done {
            last: BulkAction::Finish(rows_counted(replies, 2, total + 2) as u64),
        }),
{
    run_is_reached(total, replies);
    let state = state_after(BulkState::CheckingScore { total }, replies);
    if state is Done && state->last is Abort {
        let p = choose|p: int| broken_at(total, replies, p);
        assert(expected(total, p, replies[p]));
        rows_counted_grows(replies, 2, p + 1, total + 3);
        assert(rows_counted(replies, 2, total + 3) == rows_counted(replies, 2, total + 2)) by {
            assert(expected(total, total + 2, replies[total + 2]));
        }
    }
}

/// A finished upload stays finished: every later reply is answered with the
/// same last action and changes nothing.
pub proof fn done_is_final(last: BulkAction, reply: StoreReply)
    ensures
        transition(BulkState::Done { last }, reply) == (BulkState::Done { last }, last),
{
}

/// The commit is asked for only when every row of the batch has gone in.
pub proof fn commit_follows_all_rows(total: usize, replies: Seq<StoreReply>, reply: StoreReply)
    requires
        transition(state_after(BulkState::CheckingScore { total }, replies), reply).1
            == BulkAction::Commit,
    ensures
        replies.len() == total + 1,
        clean_so_far(total, replies.push(reply)),
{
    run_is_reached(total, replies);
    let state = state_after(BulkState::CheckingScore { total }, replies);
    let all = replies.push(reply);
    assert(all.drop_last() =~= replies);
    run_is_reached(total, all);
}

/// The row that the store holds for a sample once it has given it an id.
pub fn upload_sensor_data(id: i32, score_id: i32, data: CreateSensorData) -> (row: SensorData)
    ensures
        row == sample_row(id, score_id, data),
{
    SensorData {
        id,
        score_id,
        timestamp_offset_ms: data.timestamp_offset_ms,
        accel_x: data.accel_x,
        accel_y: data.accel_y,
        accel_z: data.accel_z,
        gyro_x: data.gyro_x,
        gyro_y: data.gyro_y,
        gyro_z: data.gyro_z,
        orientation_azimuth: data.orientation_azimuth,
        orientation_pitch: data.orientation_pitch,
        orientation_roll: data.orientation_roll,
        speed_kmh: data.speed_kmh,
        g_force: data.g_force,
        inclination_degrees: data.inclination_degrees,
        sound_db: data.sound_db,
        nearby_devices: data.nearby_devices,
        latitude: data.latitude,
        longitude: data.longitude,
        altitude: data.altitude,
    }
}

/// A sample as stored under `id` for the score `score_id`: every channel as
/// it was uploaded.
pub open spec fn sample_row(id: i32, score_id: i32, data: CreateSensorData) -> SensorData {
    SensorData {
        id,
        score_id,
        timestamp_offset_ms: data.timestamp_offset_ms,
        accel_x: data.accel_x,
        accel_y: data.accel_y,
        accel_z: data.accel_z,
        gyro_x: data.gyro_x,
        gyro_y: data.gyro_y,
        gyro_z: data.gyro_z,
        orientation_azimuth: data.orientation_azimuth,
        orientation_pitch: data.orientation_pitch,
        orientation_roll: data.orientation_roll,
        speed_kmh: data.speed_kmh,
        g_force: data.g_force,
        inclination_degrees: data.inclination_degrees,
        sound_db: data.sound_db,
        nearby_devices: data.nearby_devices,
        latitude: data.latitude,
        longitude: data.longitude,
        altitude: data.altitude,
    }
}

/// The choice of the samples of one score.
#[derive(Clone, Copy, Debug, PartialEq, Eq)]
pub struct SamplesOf {
    pub score_id: i32,
}

impl Selector<SensorData> for SamplesOf {
    open spec fn keeps(&self, row: &SensorData) -> bool {
        row.score_id == self.score_id
    }

    fn test(&self, row: &SensorData) -> (kept: bool) {
        row.score_id == self.score_id
    }
}

impl Ranked for SensorData {
    /// By the offset into the run; among samples of one offset, the lower
    /// id first.
    open spec fn rank(&self) -> (int, int) {
        (self.timestamp_offset_ms as int, self.id as int)
    }

    fn goes_before(&self, other: &Self) -> (earlier: bool) {
        self.timestamp_offset_ms < other.timestamp_offset_ms || (self.timestamp_offset_ms
            == other.timestamp_offset_ms && self.id < other.id)
    }
}

/// The samples of one score, in the order in which they were taken.
pub fn get_sensor_data(samples: Vec<SensorData>, score_id: i32) -> (listed: Vec<SensorData>)
    ensures
        listed@.to_multiset() == samples@.to_multiset().filter(
            kept_by::<SensorData, SamplesOf>(SamplesOf { score_id }),
        ),
        in_order(listed@),
{
    select_in_order(samples, &SamplesOf { score_id })
}

} // verus!
