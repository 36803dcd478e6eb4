//! The leaderboard aggregator: one row per user, made from that user's best
//! score, ranked and capped.
//!
//! Ties are settled the same way everywhere. Between two scores of one user
//! with the same measurement the one with the lower id stands for the user;
//! between two users with the same measurement the one with the lower id
//! ranks first.

use vstd::prelude::*;
use crate::listing::{in_order, insert_in_order, rank_lt, Ranked};
use crate::models::score::{LeaderboardEntry, LeaderboardEntryView, Score};
use crate::models::user::User;

verus! {

/// The number of rows at which every leaderboard is cut.
pub const LEADERBOARD_CAP: usize = 100;

/// Which leaderboard is asked for.
#[derive(Clone, Copy, Debug, PartialEq, Eq, Structural)]
pub enum Board {
    /// The lowest time of each user on one route, lowest first.
    Route(i32),
    /// The highest top speed of each user over all routes, highest first.
    GlobalSpeed,
}

/// Whether a score counts for a board: one of the route, or one with a top
/// speed.
pub open spec fn qualifies(score: Score, board: Board) -> bool {
    match board {
        Board::Route(route_id) => score.route_id == route_id,
        Board::GlobalSpeed => score.max_speed_kmh is Some,
    }
}

/// What a board ranks a score by; the lower, the better. A time counts as
/// it is, a top speed by its negative.
pub open spec fn measure(score: Score, board: Board) -> int {
    match board {
        Board::Route(_) => score.time_seconds as int,
        Board::GlobalSpeed => match score.max_speed_kmh {
            Some(speed) => -(speed as int),
            None => 0,
        },
    }
}

/// Whether score `a` stands before score `b` of the same user.
pub open spec fn beats(a: Score, b: Score, board: Board) -> bool {
    measure(a, board) < measure(b, board) || (measure(a, board) == measure(b, board) && a.id
        < b.id)
}

/// Some user has this id.
pub open spec fn known(users: Seq<User>, id: i32) -> bool {
    exists|k: int| 0 <= k < users.len() && (#[trigger] users[k]).id == id
}

/// `k` is the first user with this id.
pub open spec fn user_at(users: Seq<User>, id: i32, k: int) -> bool {
    &&& 0 <= k < users.len()
    &&& users[k].id == id
    &&& forall|j: int| 0 <= j < k ==> (#[trigger] users[j]).id != id
}

/// Among the first `n` scores, the one at `i` is the best that its user has
/// on the board: no other beats it, and of two that are level it is the
/// earlier.
pub open spec fn best_among(scores: Seq<Score>, board: Board, i: int, n: int) -> bool {
    &&& 0 <= i < n <= scores.len()
    &&& qualifies(scores[i], board)
    &&& forall|j: int|
        0 <= j < n && qualifies(#[trigger] scores[j], board) && scores[j].user_id
            == scores[i].user_id ==> !beats(scores[j], scores[i], board) && (beats(
            scores[i],
            scores[j],
            board,
        ) || i <= j)
}

/// The score at `i` is the best that its user has on the board.
pub open spec fn best_at(scores: Seq<Score>, board: Board, i: int) -> bool {
    best_among(scores, board, i, scores.len() as int)
}

/// The row that a score and its user make.
pub open spec fn entry_of(score: Score, user: User) -> LeaderboardEntryView {
    LeaderboardEntryView {
        user_id: score.user_id,
        username: user.username@,
        time_seconds: score.time_seconds,
        max_speed_kmh: score.max_speed_kmh,
        created_at: score.created_at,
    }
}

/// What a board ranks a row by: the measurement, then the user's id.
pub open spec fn entry_rank(entry: LeaderboardEntryView, board: Board) -> (int, int) {
    (
        match board {
            Board::Route(_) => entry.time_seconds as int,
            Board::GlobalSpeed => match entry.max_speed_kmh {
                Some(speed) => -(speed as int),
                None => 0,
            },
        },
        entry.user_id as int,
    )
}

/// A user on the way to the board: the position of the score that stands for
/// them and of their user record.
#[derive(Clone, Copy)]
pub struct Candidate {
    pub user_id: i32,
    pub score_at: usize,
    pub user_at: usize,
    pub measure: i128,
}

impl Ranked for Candidate {
    open spec fn rank(&self) -> (int, int) {
        (self.measure as int, self.user_id as int)
    }

    fn goes_before(&self, other: &Self) -> (earlier: bool) {
        self.measure < other.measure || (self.measure == other.measure && self.user_id
            < other.user_id)
    }
}

/// The candidate stands for the best score of its user among the first `n`.
pub open spec fn sound(
    scores: Seq<Score>,
    users: Seq<User>,
    board: Board,
    c: Candidate,
    n: int,
) -> bool {
    &&& best_among(scores, board, c.score_at as int, n)
    &&& c.user_id == scores[c.score_at as int].user_id
    &&& user_at(users, c.user_id, c.user_at as int)
    &&& c.measure == measure(scores[c.score_at as int], board)
}

/// The candidates are those of the first `n` scores: each is sound, no user
/// has two, and every known user with a qualifying score has one.
pub open spec fn collected(
    scores: Seq<Score>,
    users: Seq<User>,
    board: Board,
    cands: Seq<Candidate>,
    n: int,
) -> bool {
    &&& forall|e: int| 0 <= e < cands.len() ==> sound(scores, users, board, #[trigger] cands[e], n)
    &&& forall|e1: int, e2: int|
        0 <= e1 < e2 < cands.len() ==> (#[trigger] cands[e1]).user_id != (
        #[trigger] cands[e2]).user_id
    &&& forall|j: int|
        0 <= j < n && qualifies(#[trigger] scores[j], board) && known(users, scores[j].user_id)
            ==> exists|e: int|
            0 <= e < cands.len() && (#[trigger] cands[e]).user_id == scores[j].user_id
}

/// Whether a score counts for a board.
pub fn counts_for(score: &Score, board: Board) -> (counts: bool)
    ensures
        counts == qualifies(*score, board),
{
    match board {
        Board::Route(route_id) => score.route_id == route_id,
        Board::GlobalSpeed => score.max_speed_kmh.is_some(),
    }
}

/// What a board ranks a score by.
pub fn measure_of(score: &Score, board: Board) -> (value: i128)
    ensures
        value == measure(*score, board),
{
    match board {
        Board::Route(_) => score.time_seconds as i128,
        Board::GlobalSpeed => match score.max_speed_kmh {
            Some(speed) => -(speed as i128),
            None => 0,
        },
    }
}

/// The position of the first user with this id.
pub fn find_user(users: &Vec<User>, id: i32) -> (found: Option<usize>)
    ensures
        match found {
            Some(k) => user_at(users@, id, k as int),
            None => !known(users@, id),
        },
{
    let mut k: usize = 0;
    while k < users.len()
        invariant
            k <= users.len(),
            forall|j: int| 0 <= j < k ==> (#[trigger] users@[j]).id != id,
        decreases users.len() - k,
    {
        if users[k].id == id {
            return Some(k);
        }
        k += 1;
    }
    None
}

/// The position of the candidate of this user.
fn find_candidate(cands: &Vec<Candidate>, user_id: i32) -> (found: Option<usize>)
    ensures
        match found {
            Some(e) => e < cands.len() && cands@[e as int].user_id == user_id,
            None => forall|e: int| 0 <= e < cands.len() ==> (#[trigger] cands@[e]).user_id != user_id,
        },
{
    let mut e: usize = 0;
    while e < cands.len()
        invariant
            e <= cands.len(),
            forall|j: int| 0 <= j < e ==> (#[trigger] cands@[j]).user_id != user_id,
        decreases cands.len() - e,
    {
        if cands[e].user_id == user_id {
            return Some(e);
        }
        e += 1;
    }
    None
}

/// Takes the score at position `n` into the candidates of the first `n`.
fn take_score(
    scores: &Vec<Score>,
    users: &Vec<User>,
    board: Board,
    cands: &mut Vec<Candidate>,
    n: usize,
)
    requires
        n < scores.len(),
        collected(scores@, users@, board, old(cands)@, n as int),
    ensures
        collected(scores@, users@, board, final(cands)@, n + 1),
{
    let score = &scores[n];
    let ghost before = cands@;
    if !counts_for(score, board) {
        proof {
            assert forall|e: int| 0 <= e < before.len() implies sound(
                scores@,
                users@,
                board,
                #[trigger] before[e],
                n + 1,
            ) by {
                assert(sound(scores@, users@, board, before[e], n as int));
            }
        }
        return ;
    }
    let user_at = match find_user(users, score.user_id) {
        Some(k) => k,
        None => {
            proof {
                assert forall|e: int| 0 <= e < before.len() implies sound(
                    scores@,
                    users@,
                    board,
                    #[trigger] before[e],
                    n + 1,
                ) by {
                    assert(sound(scores@, users@, board, before[e], n as int));
                    assert(known(users@, before[e].user_id));
                }
            }
            return ;
        },
    };
    let fresh = Candidate {
        user_id: score.user_id,
        score_at: n,
        user_at,
        measure: measure_of(score, board),
    };
    match find_candidate(cands, score.user_id) {
        None => {
            cands.push(fresh);
            proof {
                let after = cands@;
                assert forall|e: int| 0 <= e < after.len() implies sound(
                    scores@,
                    users@,
                    board,
                    #[trigger] after[e],
                    n + 1,
                ) by {
                    if e < before.len() {
                        assert(after[e] == before[e]);
                        assert(sound(scores@, users@, board, before[e], n as int));
                    } else {
                        assert forall|j: int|
                            0 <= j < n + 1 && qualifies(#[trigger] scores@[j], board)
                                && scores@[j].user_id == score.user_id implies j == n by {
                            if j < n {
                                assert(known(users@, scores@[j].user_id));
                                let e0 = choose|e0: int|
                                    0 <= e0 < before.len() && (#[trigger] before[e0]).user_id
                                        == scores@[j].user_id;
                                assert(false);
                            }
                        }
                    }
                }
                assert forall|e1: int, e2: int| 0 <= e1 < e2 < after.len() implies (
                #[trigger] after[e1]).user_id != (#[trigger] after[e2]).user_id by {
                    assert(after[e1] == before[e1]);
                    if e2 < before.len() {
                        assert(after[e2] == before[e2]);
                    }
                }
                assert forall|j: int|
                    0 <= j < n + 1 && qualifies(#[trigger] scores@[j], board) && known(
                        users@,
                        scores@[j].user_id,
                    ) implies exists|e: int|
                    0 <= e < after.len() && (#[trigger] after[e]).user_id
                        == scores@[j].user_id by {
                    if j < n {
                        let e0 = choose|e0: int|
                            0 <= e0 < before.len() && (#[trigger] before[e0]).user_id
                                == scores@[j].user_id;
                        assert(after[e0] == before[e0]);
                    } else {
                        assert(after[before.len() as int].user_id == scores@[j].user_id);
                    }
                }
            }
        },
        Some(e) => {
            let held = cands[e];
            let current = &scores[held.score_at];
            proof {
                assert(sound(scores@, users@, board, before[e as int], n as int));
            }
            let better = fresh.measure < held.measure || (fresh.measure == held.measure
                && score.id < current.id);
            if better {
                cands.set(e, fresh);
            }
            proof {
                let after = cands@;
                assert forall|x: int| 0 <= x < after.len() implies sound(
                    scores@,
                    users@,
                    board,
                    #[trigger] after[x],
                    n + 1,
                ) by {
                    assert(sound(scores@, users@, board, before[x], n as int));
                    if x != e {
                        assert(after[x] == before[x]);
                        assert(before[x].user_id != before[e as int].user_id);
                    }
                }
                assert forall|e1: int, e2: int| 0 <= e1 < e2 < after.len() implies (
                #[trigger] after[e1]).user_id != (#[trigger] after[e2]).user_id by {
                    assert(after[e1].user_id == before[e1].user_id);
                    assert(after[e2].user_id == before[e2].user_id);
                }
                assert forall|j: int|
                    0 <= j < n + 1 && qualifies(#[trigger] scores@[j], board) && known(
                        users@,
                        scores@[j].user_id,
                    ) implies exists|x: int|
                    0 <= x < after.len() && (#[trigger] after[x]).user_id
                        == scores@[j].user_id by {
                    if j < n {
                        let e0 = choose|e0: int|
                            0 <= e0 < before.len() && (#[trigger] before[e0]).user_id
                                == scores@[j].user_id;
                        assert(after[e0].user_id == before[e0].user_id);
                    } else {
                        assert(after[e as int].user_id == scores@[j].user_id);
                    }
                }
            }
        },
    }
}

/// The candidates of all scores.
fn collect_best(scores: &Vec<Score>, users: &Vec<User>, board: Board) -> (cands: Vec<Candidate>)
    ensures
        collected(scores@, users@, board, cands@, scores.len() as int),
{
    let mut cands: Vec<Candidate> = Vec::new();
    let mut n: usize = 0;
    while n < scores.len()
        invariant
            n <= scores.len(),
            collected(scores@, users@, board, cands@, n as int),
        decreases scores.len() - n,
    {
        take_score(scores, users, board, &mut cands, n);
        n += 1;
    }
    cands
}

/// The candidates in the order of their ranks.
fn rank_candidates(cands: &Vec<Candidate>) -> (ranked: Vec<Candidate>)
    ensures
        in_order(ranked@),
        ranked@.to_multiset() == cands@.to_multiset(),
{
    let mut ranked: Vec<Candidate> = Vec::new();
    let mut i: usize = 0;
    proof {
        assert(cands@.subrange(0, 0) =~= ranked@);
    }
    while i < cands.len()
        invariant
            i <= cands.len(),
            in_order(ranked@),
            ranked@.to_multiset() == cands@.subrange(0, i as int).to_multiset(),
        decreases cands.len() - i,
    {
        insert_in_order(&mut ranked, cands[i]);
        proof {
            assert(cands@.subrange(0, i + 1) =~= cands@.subrange(0, i as int).push(cands@[i as int]));
            vstd::seq_lib::to_multiset_build(cands@.subrange(0, i as int), cands@[i as int]);
        }
        i += 1;
    }
    proof {
        assert(cands@.subrange(0, cands.len() as int) =~= cands@);
    }
    ranked
}

/// What ranking keeps: the same candidates, each once.
proof fn ranked_facts(cands: Seq<Candidate>, ranked: Seq<Candidate>)
    requires
        ranked.to_multiset() == cands.to_multiset(),
        forall|e1: int, e2: int|
            0 <= e1 < e2 < cands.len() ==> (#[trigger] cands[e1]).user_id != (
            #[trigger] cands[e2]).user_id,
    ensures
        ranked.len() == cands.len(),
        forall|p: int| 0 <= p < ranked.len() ==> cands.contains(#[trigger] ranked[p]),
        forall|e: int| 0 <= e < cands.len() ==> ranked.contains(#[trigger] cands[e]),
        forall|p: int, q: int|
            0 <= p < q < ranked.len() ==> (#[trigger] ranked[p]).user_id != (
            #[trigger] ranked[q]).user_id,
{
    broadcast use vstd::multiset::group_multiset_axioms;

    cands.to_multiset_ensures();
    ranked.to_multiset_ensures();
    assert(cands.no_duplicates()) by {
        assert forall|a: int, b: int| 0 <= a < cands.len() && 0 <= b < cands.len() && a
            != b implies cands[a] != cands[b] by {
            if a < b {
                assert(cands[a].user_id != cands[b].user_id);
            } else {
                assert(cands[b].user_id != cands[a].user_id);
            }
        }
    }
    cands.lemma_multiset_has_no_duplicates();
    ranked.lemma_multiset_has_no_duplicates_conv();
    assert forall|p: int| 0 <= p < ranked.len() implies cands.contains(#[trigger] ranked[p]) by {
        assert(ranked.contains(ranked[p]));
        assert(ranked.to_multiset().count(ranked[p]) > 0);
        assert(cands.to_multiset().count(ranked[p]) > 0);
    }
    assert forall|e: int| 0 <= e < cands.len() implies ranked.contains(#[trigger] cands[e]) by {
        assert(cands.contains(cands[e]));
        assert(cands.to_multiset().count(cands[e]) > 0);
        assert(ranked.to_multiset().count(cands[e]) > 0);
    }
    assert forall|p: int, q: int| 0 <= p < q < ranked.len() implies (#[trigger] ranked[p]).user_id
        != (#[trigger] ranked[q]).user_id by {
        assert(cands.contains(ranked[p]));
        assert(cands.contains(ranked[q]));
        let e1 = choose|e1: int| 0 <= e1 < cands.len() && cands[e1] == ranked[p];
        let e2 = choose|e2: int| 0 <= e2 < cands.len() && cands[e2] == ranked[q];
        assert(ranked[p] != ranked[q]);
        if e1 < e2 {
            assert(cands[e1].user_id != cands[e2].user_id);
        } else if e2 < e1 {
            assert(cands[e2].user_id != cands[e1].user_id);
        }
    }
}

/// The row `entry` is made from the best score of a user, at position `i`,
/// and from that user's record, at position `k`.
pub open spec fn stands_for(
    scores: Seq<Score>,
    users: Seq<User>,
    board: Board,
    entry: LeaderboardEntryView,
    i: int,
    k: int,
) -> bool {
    &&& best_at(scores, board, i)
    &&& user_at(users, scores[i].user_id, k)
    &&& entry == entry_of(scores[i], users[k])
}

/// The row is made from the best score of some known user.
pub open spec fn from_a_best_score(
    scores: Seq<Score>,
    users: Seq<User>,
    board: Board,
    entry: LeaderboardEntryView,
) -> bool {
    exists|i: int, k: int| stands_for(scores, users, board, entry, i, k)
}

/// `listed` is the leaderboard of the scores.
///
/// It holds at most [`LEADERBOARD_CAP`] rows, strictly ascending by rank,
/// so that no user stands twice. Each row is made from the best score of a
/// known user. And every known user with a qualifying score is on it, or
/// the board is full and the user ranks behind its last row.
pub open spec fn is_leaderboard(
    scores: Seq<Score>,
    users: Seq<User>,
    board: Board,
    listed: Seq<LeaderboardEntry>,
) -> bool {
    &&& listed.len() <= LEADERBOARD_CAP
    &&& forall|a: int, b: int|
        0 <= a < b < listed.len() ==> rank_lt(
            entry_rank((#[trigger] listed[a])@, board),
            entry_rank((#[trigger] listed[b])@, board),
        )
    &&& forall|a: int|
        0 <= a < listed.len() ==> from_a_best_score(scores, users, board, (#[trigger] listed[a])@)
    &&& forall|i: int, k: int|
        best_at(scores, board, i) && #[trigger] user_at(users, scores[i].user_id, k) ==> {
            ||| exists|a: int|
                0 <= a < listed.len() && (#[trigger] listed[a])@ == entry_of(scores[i], users[k])
            ||| listed.len() == LEADERBOARD_CAP && rank_lt(
                entry_rank(listed[LEADERBOARD_CAP - 1]@, board),
                entry_rank(entry_of(scores[i], users[k]), board),
            )
        }
}

/// The best score of a user is one score.
pub proof fn best_is_unique(scores: Seq<Score>, board: Board, i: int, j: int, n: int)
    requires
        best_among(scores, board, i, n),
        best_among(scores, board, j, n),
        scores[i].user_id == scores[j].user_id,
    ensures
        i == j,
{
}

/// The leaderboard of a board: for each known user with a score that
/// counts, the row of their best score, ranked, and cut at the cap.
pub fn leaderboard(scores: &Vec<Score>, users: &Vec<User>, board: Board) -> (listed: Vec<
    LeaderboardEntry,
>)
    ensures
        is_leaderboard(scores@, users@, board, listed@),
{
    let cands = collect_best(scores, users, board);
    let ranked = rank_candidates(&cands);
    let ghost n = scores.len() as int;
    proof {
        ranked_facts(cands@, ranked@);
        assert forall|p: int| 0 <= p < ranked.len() implies sound(
            scores@,
            users@,
            board,
            #[trigger] ranked@[p],
            n,
        ) by {
            assert(cands@.contains(ranked@[p]));
        }
    }
    let mut listed: Vec<LeaderboardEntry> = Vec::new();
    let mut a: usize = 0;
    while a < ranked.len() && a < LEADERBOARD_CAP
        invariant
            a <= ranked.len(),
            a <= LEADERBOARD_CAP,
            listed.len() == a,
            n == scores.len(),
            forall|p: int|
                0 <= p < ranked.len() ==> sound(scores@, users@, board, #[trigger] ranked@[p], n),
            forall|x: int|
                0 <= x < a ==> (#[trigger] listed@[x])@ == entry_of(
                    scores@[ranked@[x].score_at as int],
                    users@[ranked@[x].user_at as int],
                ),
        decreases ranked.len() - a,
    {
        let c = ranked[a];
        proof {
            assert(sound(scores@, users@, board, ranked@[a as int], n));
        }
        let score = &scores[c.score_at];
        let user = &users[c.user_at];
        listed.push(
            LeaderboardEntry {
                user_id: score.user_id,
                username: user.username.clone(),
                time_seconds: score.time_seconds,
                max_speed_kmh: score.max_speed_kmh,
                created_at: score.created_at,
            },
        );
        a += 1;
    }
    proof {
        let rows = listed@;
        assert forall|x: int| 0 <= x < rows.len() implies entry_rank(
            (#[trigger] rows[x])@,
            board,
        ) == ranked@[x].rank() by {
            assert(sound(scores@, users@, board, ranked@[x], n));
        }
        assert forall|x: int, y: int| 0 <= x < y < ranked.len() implies rank_lt(
            (#[trigger] ranked@[x]).rank(),
            (#[trigger] ranked@[y]).rank(),
        ) by {
            assert(!rank_lt(ranked@[y].rank(), ranked@[x].rank()));
            assert(ranked@[x].user_id != ranked@[y].user_id);
        }
        assert forall|x: int, y: int| 0 <= x < y < rows.len() implies rank_lt(
            entry_rank((#[trigger] rows[x])@, board),
            entry_rank((#[trigger] rows[y])@, board),
        ) by {
            assert(rank_lt(ranked@[x].rank(), ranked@[y].rank()));
        }
        assert forall|x: int| 0 <= x < rows.len() implies from_a_best_score(
            scores@,
            users@,
            board,
            (#[trigger] rows[x])@,
        ) by {
            let c = ranked@[x];
            assert(sound(scores@, users@, board, c, n));
            assert(stands_for(
                scores@,
                users@,
                board,
                rows[x]@,
                c.score_at as int,
                c.user_at as int,
            ));
        }
        assert forall|i: int, k: int|
            best_at(scores@, board, i) && #[trigger] user_at(
                users@,
                scores@[i].user_id,
                k,
            ) implies {
            ||| exists|x: int|
                0 <= x < rows.len() && (#[trigger] rows[x])@ == entry_of(scores@[i], users@[k])
            ||| rows.len() == LEADERBOARD_CAP && rank_lt(
                entry_rank(rows[LEADERBOARD_CAP - 1]@, board),
                entry_rank(entry_of(scores@[i], users@[k]), board),
            )
        } by {
            assert(known(users@, scores@[i].user_id));
            let e = choose|e: int|
                0 <= e < cands@.len() && (#[trigger] cands@[e]).user_id == scores@[i].user_id;
            let c = cands@[e];
            assert(sound(scores@, users@, board, c, n));
            best_is_unique(scores@, board, c.score_at as int, i, n);
            assert(c.user_at == k) by {
                if (c.user_at as int) < k {
                    assert(users@[c.user_at as int].id != scores@[i].user_id);
                }
                if k < c.user_at as int {
                    assert(users@[k].id != c.user_id);
                }
            }
            assert(ranked@.contains(c));
            let p = choose|p: int| 0 <= p < ranked@.len() && ranked@[p] == c;
            if p < rows.len() {
                assert(rows[p]@ == entry_of(scores@[i], users@[k]));
            } else {
                assert(rows.len() == LEADERBOARD_CAP);
                assert(rank_lt(ranked@[LEADERBOARD_CAP - 1].rank(), ranked@[p].rank()));
                assert(entry_rank(rows[LEADERBOARD_CAP - 1]@, board) == ranked@[LEADERBOARD_CAP
                    - 1].rank());
            }
        }
    }
    listed
}

/// Best per user: on a leaderboard no user stands twice, and the row of a
/// user shows a measurement that none of that user's qualifying scores
/// undercuts.
pub proof fn one_row_per_user_and_it_is_the_best(
    scores: Seq<Score>,
    users: Seq<User>,
    board: Board,
    listed: Seq<LeaderboardEntry>,
)
    requires
        is_leaderboard(scores, users, board, listed),
    ensures
        forall|a: int, b: int|
            0 <= a < b < listed.len() ==> (#[trigger] listed[a]).user_id != (
            #[trigger] listed[b]).user_id,
        forall|a: int, j: int|
            0 <= a < listed.len() && 0 <= j < scores.len() && qualifies(
                #[trigger] scores[j],
                board,
            ) && scores[j].user_id == (#[trigger] listed[a]).user_id ==> entry_rank(
                listed[a]@,
                board,
            ).0 <= measure(scores[j], board),
{
    assert forall|a: int, b: int| 0 <= a < b < listed.len() implies (#[trigger] listed[a]).user_id
        != (#[trigger] listed[b]).user_id by {
        assert(from_a_best_score(scores, users, board, listed[a]@));
        assert(from_a_best_score(scores, users, board, listed[b]@));
        let (i1, k1) = choose|i: int, k: int| stands_for(scores, users, board, listed[a]@, i, k);
        let (i2, k2) = choose|i: int, k: int| stands_for(scores, users, board, listed[b]@, i, k);
        if listed[a].user_id == listed[b].user_id {
            best_is_unique(scores, board, i1, i2, scores.len() as int);
            if k1 < k2 {
                assert(users[k1].id != scores[i2].user_id);
            }
            if k2 < k1 {
                assert(users[k2].id != scores[i1].user_id);
            }
            assert(rank_lt(entry_rank(listed[a]@, board), entry_rank(listed[b]@, board)));
        }
    }
    assert forall|a: int, j: int|
        0 <= a < listed.len() && 0 <= j < scores.len() && qualifies(#[trigger] scores[j], board)
            && scores[j].user_id == (#[trigger] listed[a]).user_id implies entry_rank(
        listed[a]@,
        board,
    ).0 <= measure(scores[j], board) by {
        assert(from_a_best_score(scores, users, board, listed[a]@));
        let (i, k) = choose|i: int, k: int| stands_for(scores, users, board, listed[a]@, i, k);
        assert(!beats(scores[j], scores[i], board));
    }
}

/// A leaderboard is determined by the scores and the users: two lists that
/// both are the leaderboard show the same rows in the same order.
pub proof fn leaderboard_is_unique(
    scores: Seq<Score>,
    users: Seq<User>,
    board: Board,
    first: Seq<LeaderboardEntry>,
    second: Seq<LeaderboardEntry>,
)
    requires
        is_leaderboard(scores, users, board, first),
        is_leaderboard(scores, users, board, second),
    ensures
        first.len() == second.len(),
        forall|a: int| 0 <= a < first.len() ==> (#[trigger] first[a])@ == second[a]@,
{
    ranks_agree(scores, users, board, first, second, first.len() as int);
    ranks_agree(scores, users, board, second, first, second.len() as int);
}

/// Two leaderboards of the same scores agree on their first `m` rows, and
/// the second is at least as long as `m`, for every `m` up to the length of
/// the first.
proof fn ranks_agree(
    scores: Seq<Score>,
    users: Seq<User>,
    board: Board,
    first: Seq<LeaderboardEntry>,
    second: Seq<LeaderboardEntry>,
    m: int,
)
    requires
        is_leaderboard(scores, users, board, first),
        is_leaderboard(scores, users, board, second),
        0 <= m <= first.len(),
    ensures
        m <= second.len(),
        forall|a: int| 0 <= a < m ==> (#[trigger] first[a])@ == second[a]@,
    decreases m,
{
    if m > 0 {
        ranks_agree(scores, users, board, first, second, m - 1);
        let a = m - 1;
        let row = first[a]@;
        assert(from_a_best_score(scores, users, board, row));
        let (i, k) = choose|i: int, k: int| stands_for(scores, users, board, row, i, k);
        assert(user_at(users, scores[i].user_id, k));
        // `row` stands in `second`, or `second` is full and `row` ranks behind it.
        let in_second = exists|b: int|
            0 <= b < second.len() && (#[trigger] second[b])@ == entry_of(scores[i], users[k]);
        if in_second {
            let b = choose|b: int|
                0 <= b < second.len() && (#[trigger] second[b])@ == entry_of(scores[i], users[k]);
            if b < a {
                assert(first[b]@ == second[b]@);
                assert(rank_lt(entry_rank(first[b]@, board), entry_rank(first[a]@, board)));
            }
            if b > a {
                // the row of `second` at `a` ranks before `row`; it stands in
                // `first` before position `a`, or `first` is full behind it.
                assert(a < second.len());
                let other = second[a]@;
                assert(rank_lt(entry_rank(second[a]@, board), entry_rank(second[b]@, board)));
                assert(from_a_best_score(scores, users, board, other));
                let (i2, k2) = choose|i: int, k: int|
                    stands_for(scores, users, board, other, i, k);
                assert(user_at(users, scores[i2].user_id, k2));
                let in_first = exists|c: int|
                    0 <= c < first.len() && (#[trigger] first[c])@ == entry_of(
                        scores[i2],
                        users[k2],
                    );
                if in_first {
                    let c = choose|c: int|
                        0 <= c < first.len() && (#[trigger] first[c])@ == entry_of(
                            scores[i2],
                            users[k2],
                        );
                    if c < a {
                        assert(first[c]@ == second[c]@);
                        assert(rank_lt(
                            entry_rank(second[c]@, board),
                            entry_rank(second[a]@, board),
                        ));
                    } else if c > a {
                        assert(rank_lt(entry_rank(first[a]@, board), entry_rank(first[c]@, board)));
                    }
                } else {
                    assert(first.len() == LEADERBOARD_CAP);
                    if a < LEADERBOARD_CAP - 1 {
                        assert(rank_lt(
                            entry_rank(first[a]@, board),
                            entry_rank(first[LEADERBOARD_CAP - 1]@, board),
                        ));
                    }
                }
            }
        } else {
            assert(second.len() == LEADERBOARD_CAP);
            assert(a < second.len());
            let last = LEADERBOARD_CAP - 1;
            if a < last {
                assert(rank_lt(entry_rank(second[a]@, board), entry_rank(second[last]@, board)));
            }
            // the row of `second` at `a` ranks before `row`
            let other = second[a]@;
            assert(from_a_best_score(scores, users, board, other));
            let (i2, k2) = choose|i: int, k: int| stands_for(scores, users, board, other, i, k);
            assert(user_at(users, scores[i2].user_id, k2));
            let in_first = exists|c: int|
                0 <= c < first.len() && (#[trigger] first[c])@ == entry_of(scores[i2], users[k2]);
            if in_first {
                let c = choose|c: int|
                    0 <= c < first.len() && (#[trigger] first[c])@ == entry_of(
                        scores[i2],
                        users[k2],
                    );
                if c < a {
                    assert(first[c]@ == second[c]@);
                    assert(rank_lt(entry_rank(second[c]@, board), entry_rank(second[a]@, board)));
                } else if c > a {
                    assert(rank_lt(entry_rank(first[a]@, board), entry_rank(first[c]@, board)));
                }
            } else {
                assert(first.len() == LEADERBOARD_CAP);
                if a < LEADERBOARD_CAP - 1 {
                    assert(rank_lt(
                        entry_rank(first[a]@, board),
                        entry_rank(first[LEADERBOARD_CAP - 1]@, board),
                    ));
                }
            }
        }
    }
}

/// The row is made from the user record at position `k`.
pub open spec fn made_from_user(
    scores: Seq<Score>,
    users: Seq<User>,
    board: Board,
    entry: LeaderboardEntryView,
    k: int,
) -> bool {
    exists|i: int| stands_for(scores, users, board, entry, i, k)
}

/// The position of the user record from which a row was made.
pub open spec fn user_of_row(
    scores: Seq<Score>,
    users: Seq<User>,
    board: Board,
    entry: LeaderboardEntryView,
) -> int {
    choose|k: int| made_from_user(scores, users, board, entry, k)
}

/// The cap cuts nobody off while no more than a hundred users are known:
/// every known user with a qualifying score then stands on the board.
pub proof fn small_board_lists_everyone(
    scores: Seq<Score>,
    users: Seq<User>,
    board: Board,
    listed: Seq<LeaderboardEntry>,
)
    requires
        is_leaderboard(scores, users, board, listed),
        users.len() <= LEADERBOARD_CAP,
    ensures
        forall|i: int, k: int|
            best_at(scores, board, i) && #[trigger] user_at(users, scores[i].user_id, k)
                ==> exists|a: int|
                0 <= a < listed.len() && (#[trigger] listed[a])@ == entry_of(scores[i], users[k]),
{
    assert forall|i: int, k: int|
        best_at(scores, board, i) && #[trigger] user_at(
            users,
            scores[i].user_id,
            k,
        ) implies exists|a: int|
        0 <= a < listed.len() && (#[trigger] listed[a])@ == entry_of(scores[i], users[k]) by {
        let on_board = exists|a: int|
            0 <= a < listed.len() && (#[trigger] listed[a])@ == entry_of(scores[i], users[k]);
        if !on_board {
            // a full board and one more user make a hundred and one records
            assert(listed.len() == LEADERBOARD_CAP);
            let cap = LEADERBOARD_CAP as int;
            let ks = Seq::new(
                (cap + 1) as nat,
                |a: int|
                    if a < cap {
                        user_of_row(scores, users, board, listed[a]@)
                    } else {
                        k
                    },
            );
            assert forall|a: int| 0 <= a < cap implies {
                &&& 0 <= #[trigger] ks[a] < users.len()
                &&& users[ks[a]].id == listed[a].user_id
                &&& ks[a] != k
            } by {
                assert(from_a_best_score(scores, users, board, listed[a]@));
                let (i0, k0) = choose|i0: int, k0: int|
                    stands_for(scores, users, board, listed[a]@, i0, k0);
                assert(made_from_user(scores, users, board, listed[a]@, k0));
                let ka = ks[a];
                assert(made_from_user(scores, users, board, listed[a]@, ka));
                let ia = choose|i1: int| stands_for(scores, users, board, listed[a]@, i1, ka);
                if ka == k {
                    best_is_unique(scores, board, ia, i, scores.len() as int);
                    assert(listed[a]@ == entry_of(scores[i], users[k]));
                }
            }
            one_row_per_user_and_it_is_the_best(scores, users, board, listed);
            assert(ks.no_duplicates()) by {
                assert forall|a: int, b: int| 0 <= a < ks.len() && 0 <= b < ks.len() && a
                    != b implies ks[a] != ks[b] by {
                    if a < cap && b < cap {
                        if a < b {
                            assert(listed[a].user_id != listed[b].user_id);
                        } else {
                            assert(listed[b].user_id != listed[a].user_id);
                        }
                    }
                }
            }
            ks.unique_seq_to_set();
            vstd::set_lib::lemma_int_range(0, users.len() as int);
            assert(ks.to_set().subset_of(vstd::set_lib::set_int_range(0, users.len() as int))) by {
                assert forall|x: int| ks.to_set().contains(x) implies vstd::set_lib::set_int_range(
                    0,
                    users.len() as int,
                ).contains(x) by {
                    let a = choose|a: int| 0 <= a < ks.len() && ks[a] == x;
                    if a < cap {
                        assert(0 <= ks[a] < users.len());
                    }
                }
            }
            vstd::set_lib::lemma_len_subset(
                ks.to_set(),
                vstd::set_lib::set_int_range(0, users.len() as int),
            );
            assert(false);
        }
    }
}

} // verus!
