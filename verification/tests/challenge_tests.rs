use rust_rmce_api::error::ApiError;
use rust_rmce_api::models::challenge::{Challenge, ChallengeStatus, CreateChallenge, UpdateChallenge};
use rust_rmce_api::routes::challenges::{
    accept_challenge, complete_challenge, create_challenge, get_available_challenges, get_challenge,
};
use rust_rmce_api::token::Claims;

fn caller(user_id: i32) -> Claims {
    Claims { user_id, username: "c".to_string(), email: "c@t".to_string(), exp: 2, iat: 1 }
}

fn pending(id: i32, challenged_id: Option<i32>, created_at: Option<i64>) -> Challenge {
    Challenge {
        id,
        route_id: 5,
        challenger_id: 1,
        challenged_id,
        status: ChallengeStatus::Pending,
        challenger_time: None,
        challenged_time: None,
        winner_id: None,
        created_at,
        completed_at: None,
    }
}

fn patch(status: Option<ChallengeStatus>, mine: Option<i64>, theirs: Option<i64>) -> UpdateChallenge {
    UpdateChallenge { status, challenger_time: mine, challenged_time: theirs }
}

#[test]
fn a_new_challenge_is_pending() {
    let c = create_challenge(
        8,
        Some(50),
        &caller(1),
        CreateChallenge { route_id: 5, challenged_id: Some(2) },
    );
    assert_eq!(c, pending(8, Some(2), Some(50)));
    let open = create_challenge(9, None, &caller(3), CreateChallenge { route_id: 5, challenged_id: None });
    assert_eq!(open.status, ChallengeStatus::Pending);
    assert_eq!(open.challenger_id, 3);
    assert_eq!(open.challenged_id, None);
}

#[test]
fn accept_turns_pending_into_active() {
    let accepted = accept_challenge(Some(pending(8, Some(2), Some(50)))).unwrap();
    let mut expected = pending(8, Some(2), Some(50));
    expected.status = ChallengeStatus::Active;
    assert_eq!(accepted, expected);
}

#[test]
fn accept_of_a_challenge_that_is_not_pending_changes_nothing() {
    for status in [ChallengeStatus::Active, ChallengeStatus::Completed] {
        let mut stored = pending(8, Some(2), Some(50));
        stored.status = status;
        stored.challenger_time = Some(11);
        let before = stored;
        assert_eq!(stored.accept(), Err(ApiError::NotFound));
        assert_eq!(stored, before);
        assert_eq!(accept_challenge(Some(before)), Err(ApiError::NotFound));
    }
}

#[test]
fn accepting_twice_fails_the_second_time() {
    let mut stored = pending(8, None, Some(50));
    assert_eq!(stored.accept(), Ok(()));
    assert_eq!(stored.status, ChallengeStatus::Active);
    assert_eq!(stored.accept(), Err(ApiError::NotFound));
    assert_eq!(stored.status, ChallengeStatus::Active);
}

#[test]
fn accept_and_complete_of_an_unknown_challenge_are_not_found() {
    assert_eq!(accept_challenge(None), Err(ApiError::NotFound));
    assert_eq!(
        complete_challenge(None, patch(Some(ChallengeStatus::Completed), Some(1), Some(2)), 9),
        Err(ApiError::NotFound)
    );
    assert_eq!(get_challenge(None), Err(ApiError::NotFound));
    assert_eq!(get_challenge(Some(pending(1, None, None))), Ok(pending(1, None, None)));
}

#[test]
fn the_strictly_faster_challenger_wins() {
    // 10.0 s against 12.0 s, in thousandths
    let done = complete_challenge(
        Some(pending(8, Some(2), Some(50))),
        patch(Some(ChallengeStatus::Completed), Some(10_000), Some(12_000)),
        900,
    )
    .unwrap();
    assert_eq!(done.winner_id, Some(1));
    assert_eq!(done.status, ChallengeStatus::Completed);
    assert_eq!(done.challenger_time, Some(10_000));
    assert_eq!(done.challenged_time, Some(12_000));
    assert_eq!(done.completed_at, Some(900));
}

#[test]
fn the_challenged_wins_otherwise() {
    let slower = complete_challenge(
        Some(pending(8, Some(2), None)),
        patch(None, Some(12_000), Some(10_000)),
        900,
    )
    .unwrap();
    assert_eq!(slower.winner_id, Some(2));
    let tie = complete_challenge(
        Some(pending(8, Some(2), None)),
        patch(None, Some(10_000), Some(10_000)),
        900,
    )
    .unwrap();
    assert_eq!(tie.winner_id, Some(2));
    let open = complete_challenge(
        Some(pending(8, None, None)),
        patch(None, Some(12_000), Some(10_000)),
        900,
    )
    .unwrap();
    assert_eq!(open.winner_id, None);
}

#[test]
fn without_both_times_there_is_no_winner() {
    let cases = [(Some(10_000), None), (None, Some(12_000)), (None, None)];
    for (mine, theirs) in cases {
        let mut stored = pending(8, Some(2), None);
        stored.challenger_time = Some(1);
        stored.challenged_time = Some(2);
        stored.winner_id = Some(1);
        let done =
            complete_challenge(Some(stored), patch(Some(ChallengeStatus::Completed), mine, theirs), 7)
                .unwrap();
        assert_eq!(done.winner_id, None);
        assert_eq!(done.status, ChallengeStatus::Completed);
    }
}

#[test]
fn completion_merges_what_the_request_leaves_out() {
    let mut stored = pending(8, Some(2), Some(50));
    stored.status = ChallengeStatus::Active;
    stored.challenger_time = Some(700);
    stored.completed_at = Some(3);
    let done = complete_challenge(Some(stored), patch(None, None, Some(650)), 900).unwrap();
    assert_eq!(
        done,
        Challenge {
            id: 8,
            route_id: 5,
            challenger_id: 1,
            challenged_id: Some(2),
            status: ChallengeStatus::Active,
            challenger_time: Some(700),
            challenged_time: Some(650),
            winner_id: None,
            created_at: Some(50),
            completed_at: Some(3),
        }
    );
}

#[test]
fn completion_instant_is_stamped_only_with_the_completed_status() {
    let stored = pending(8, Some(2), Some(50));
    let times_only = complete_challenge(Some(stored), patch(None, Some(1), Some(2)), 900).unwrap();
    assert_eq!(times_only.completed_at, None);
    assert_eq!(times_only.winner_id, Some(1));
    let active =
        complete_challenge(Some(stored), patch(Some(ChallengeStatus::Active), None, None), 900).unwrap();
    assert_eq!(active.completed_at, None);
    assert_eq!(active.status, ChallengeStatus::Active);
    let completed =
        complete_challenge(Some(stored), patch(Some(ChallengeStatus::Completed), None, None), 900)
            .unwrap();
    assert_eq!(completed.completed_at, Some(900));
    let mut already = stored;
    already.status = ChallengeStatus::Completed;
    already.completed_at = Some(4);
    let again = complete_challenge(Some(already), patch(None, Some(5), None), 900).unwrap();
    assert_eq!(again.completed_at, Some(4));
    assert_eq!(again.status, ChallengeStatus::Completed);
}

#[test]
fn complete_in_place_equals_the_endpoint() {
    let mut stored = pending(8, Some(2), Some(50));
    let update = patch(Some(ChallengeStatus::Completed), Some(30), Some(20));
    let expected = complete_challenge(Some(stored), update, 77).unwrap();
    stored.complete(update, 77);
    assert_eq!(stored, expected);
    assert_eq!(stored.winner_id, Some(2));
}

#[test]
fn available_challenges_are_the_open_pending_ones_newest_first() {
    let mut active_open = pending(4, None, Some(99));
    active_open.status = ChallengeStatus::Active;
    let all = vec![
        pending(1, None, Some(10)),
        pending(2, Some(7), Some(40)),
        pending(3, None, Some(30)),
        active_open,
        pending(5, None, Some(30)),
        pending(6, None, None),
    ];
    let listed = get_available_challenges(all);
    let ids: Vec<i32> = listed.iter().map(|c| c.id).collect();
    assert_eq!(ids, vec![6, 5, 3, 1]);
    assert!(get_available_challenges(Vec::new()).is_empty());
}

#[test]
fn status_words() {
    assert_eq!(ChallengeStatus::Pending.as_str(), "pending");
    assert_eq!(ChallengeStatus::Active.as_str(), "active");
    assert_eq!(ChallengeStatus::Completed.as_str(), "completed");
    assert_eq!(ChallengeStatus::parse("pending"), Some(ChallengeStatus::Pending));
    assert_eq!(ChallengeStatus::parse("active"), Some(ChallengeStatus::Active));
    assert_eq!(ChallengeStatus::parse("completed"), Some(ChallengeStatus::Completed));
    assert_eq!(ChallengeStatus::parse("Completed"), None);
    assert_eq!(ChallengeStatus::parse("complete"), None);
    assert_eq!(ChallengeStatus::parse(""), None);
}

#[test]
fn a_completed_challenge_stays_completed_whatever_the_request_names() {
    let mut stored = pending(8, Some(2), Some(50));
    stored.status = ChallengeStatus::Completed;
    stored.completed_at = Some(4);
    for named in [None, Some(ChallengeStatus::Pending), Some(ChallengeStatus::Active)] {
        let after = complete_challenge(Some(stored), patch(named, Some(10_000), Some(12_000)), 900)
            .unwrap();
        assert_eq!(after.status, ChallengeStatus::Completed);
        assert_eq!(after.completed_at, Some(4));
        assert_eq!(after.winner_id, Some(1));
        assert_eq!(after.challenger_time, Some(10_000));
        assert_eq!(after.challenged_time, Some(12_000));
    }
    let again =
        complete_challenge(Some(stored), patch(Some(ChallengeStatus::Completed), None, None), 900)
            .unwrap();
    assert_eq!(again.status, ChallengeStatus::Completed);
    assert_eq!(again.completed_at, Some(900));
    let mut in_place = stored;
    in_place.complete(patch(Some(ChallengeStatus::Pending), None, None), 900);
    assert_eq!(in_place.status, ChallengeStatus::Completed);
    assert_eq!(in_place.accept(), Err(ApiError::NotFound));
    assert_eq!(in_place.status, ChallengeStatus::Completed);
}

#[test]
fn a_named_status_is_taken_unless_the_challenge_was_completed() {
    let stored = pending(8, Some(2), Some(50));
    let mut active = stored;
    active.status = ChallengeStatus::Active;
    let mut completed = stored;
    completed.status = ChallengeStatus::Completed;
    let status_after = |from: Challenge, named: Option<ChallengeStatus>| {
        complete_challenge(Some(from), patch(named, None, None), 900).unwrap().status
    };
    assert_eq!(status_after(stored, None), ChallengeStatus::Pending);
    assert_eq!(status_after(stored, Some(ChallengeStatus::Pending)), ChallengeStatus::Pending);
    assert_eq!(status_after(stored, Some(ChallengeStatus::Active)), ChallengeStatus::Active);
    assert_eq!(status_after(stored, Some(ChallengeStatus::Completed)), ChallengeStatus::Completed);
    assert_eq!(status_after(active, None), ChallengeStatus::Active);
    assert_eq!(status_after(active, Some(ChallengeStatus::Pending)), ChallengeStatus::Pending);
    assert_eq!(status_after(active, Some(ChallengeStatus::Active)), ChallengeStatus::Active);
    assert_eq!(status_after(active, Some(ChallengeStatus::Completed)), ChallengeStatus::Completed);
    assert_eq!(status_after(completed, None), ChallengeStatus::Completed);
    assert_eq!(status_after(completed, Some(ChallengeStatus::Pending)), ChallengeStatus::Completed);
    assert_eq!(status_after(completed, Some(ChallengeStatus::Active)), ChallengeStatus::Completed);
    assert_eq!(
        status_after(completed, Some(ChallengeStatus::Completed)),
        ChallengeStatus::Completed
    );
    let back =
        complete_challenge(Some(active), patch(Some(ChallengeStatus::Pending), None, None), 900)
            .unwrap();
    assert_eq!(back.completed_at, None);
    let mut expected = active;
    expected.status = ChallengeStatus::Pending;
    assert_eq!(back, expected);
}
