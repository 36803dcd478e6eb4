use rust_rmce_api::error::ApiError;
use rust_rmce_api::models::friendship::{Friendship, FriendshipStatus};
use rust_rmce_api::models::post::{CreatePost, Post, UpdatePost};
use rust_rmce_api::models::user::{CreateUser, User};
use rust_rmce_api::routes::friends::{
    accept_friend, add_friend, get_friends, get_pending_requests, reject_friend,
};
use rust_rmce_api::routes::posts::{create_post, delete_post, get_post, update_post};
use rust_rmce_api::routes::users::{
    add_friend as add_friend_by_ids, create_user, delete_user, friend_request_outcome, get_user,
    FriendRequestOutcome,
};
use rust_rmce_api::token::Claims;

fn caller(user_id: i32) -> Claims {
    Claims { user_id, username: "c".to_string(), email: "c@t".to_string(), exp: 2, iat: 1 }
}

fn edge(id: i32, from: i32, to: i32, status: FriendshipStatus, created_at: Option<i64>) -> Friendship {
    Friendship { id, user_id: from, friend_id: to, status, created_at }
}

#[test]
fn a_friend_request_needs_the_friend() {
    assert_eq!(add_friend(false, None, 1, Some(5), &caller(1), 2), Err(ApiError::NotFound));
    assert_eq!(
        add_friend(true, None, 9, Some(5), &caller(1), 2),
        Ok(edge(9, 1, 2, FriendshipStatus::Pending, Some(5)))
    );
}

#[test]
fn asking_again_sets_the_one_edge_back_to_pending() {
    let rejected = edge(4, 1, 2, FriendshipStatus::Rejected, Some(3));
    assert_eq!(
        add_friend(true, Some(rejected), 9, Some(5), &caller(1), 2),
        Ok(edge(4, 1, 2, FriendshipStatus::Pending, Some(3)))
    );
    // an edge between two others is not the caller's
    let other = edge(4, 2, 1, FriendshipStatus::Accepted, Some(3));
    assert_eq!(
        add_friend(true, Some(other), 9, Some(5), &caller(1), 2),
        Ok(edge(9, 1, 2, FriendshipStatus::Pending, Some(5)))
    );
}

#[test]
fn accepting_and_rejecting_flip_the_one_edge() {
    let asked = edge(4, 1, 2, FriendshipStatus::Pending, Some(3));
    assert_eq!(accept_friend(Some(asked)), Ok(edge(4, 1, 2, FriendshipStatus::Accepted, Some(3))));
    assert_eq!(reject_friend(Some(asked)), Ok(edge(4, 1, 2, FriendshipStatus::Rejected, Some(3))));
    assert_eq!(accept_friend(None), Err(ApiError::NotFound));
    assert_eq!(reject_friend(None), Err(ApiError::NotFound));
}

#[test]
fn friendship_is_not_reciprocal_by_itself() {
    let forth = accept_friend(Some(edge(1, 1, 2, FriendshipStatus::Pending, Some(1)))).unwrap();
    let back = edge(2, 2, 1, FriendshipStatus::Pending, Some(2));
    let edges = vec![forth, back];
    assert_eq!(get_friends(edges.clone(), &caller(1)), vec![forth]);
    assert!(get_friends(edges.clone(), &caller(2)).is_empty());
    assert_eq!(get_pending_requests(edges, &caller(1)), vec![back]);
}

#[test]
fn edge_listings_come_newest_first() {
    let edges = vec![
        edge(1, 9, 1, FriendshipStatus::Pending, Some(10)),
        edge(2, 8, 1, FriendshipStatus::Pending, Some(30)),
        edge(3, 7, 1, FriendshipStatus::Accepted, Some(40)),
        edge(4, 6, 2, FriendshipStatus::Pending, Some(50)),
        edge(5, 5, 1, FriendshipStatus::Pending, Some(30)),
        edge(6, 1, 5, FriendshipStatus::Accepted, Some(1)),
        edge(7, 1, 6, FriendshipStatus::Accepted, Some(2)),
        edge(8, 1, 7, FriendshipStatus::Rejected, Some(3)),
    ];
    let pending: Vec<i32> = get_pending_requests(edges.clone(), &caller(1)).iter().map(|e| e.id).collect();
    assert_eq!(pending, vec![5, 2, 1]);
    let friends: Vec<i32> = get_friends(edges, &caller(1)).iter().map(|e| e.id).collect();
    assert_eq!(friends, vec![7, 6]);
}

#[test]
fn friendship_status_words() {
    assert_eq!(FriendshipStatus::Pending.as_str(), "pending");
    assert_eq!(FriendshipStatus::Accepted.as_str(), "accepted");
    assert_eq!(FriendshipStatus::Rejected.as_str(), "rejected");
    assert_eq!(FriendshipStatus::parse("accepted"), Some(FriendshipStatus::Accepted));
    assert_eq!(FriendshipStatus::parse("rejected"), Some(FriendshipStatus::Rejected));
    assert_eq!(FriendshipStatus::parse("pending"), Some(FriendshipStatus::Pending));
    assert_eq!(FriendshipStatus::parse("active"), None);
}

#[test]
fn posts_are_plain_rows() {
    let post = create_post(
        3,
        CreatePost {
            title: "Test Post".to_string(),
            body: "This is a test post body".to_string(),
            user_id: None,
        },
    );
    assert_eq!(
        post,
        Post {
            id: 3,
            user_id: None,
            title: "Test Post".to_string(),
            body: "This is a test post body".to_string(),
        }
    );
    let update = || UpdatePost { title: "t".to_string(), body: "b".to_string(), user_id: Some(4) };
    assert_eq!(
        update_post(Some(post), update()),
        Ok(Post { id: 3, user_id: Some(4), title: "t".to_string(), body: "b".to_string() })
    );
    assert_eq!(update_post(None, update()), Err(ApiError::NotFound));
    assert_eq!(get_post(None), Err(ApiError::NotFound));
    assert_eq!(delete_post(0), Err(ApiError::NotFound));
    assert_eq!(delete_post(1), Ok(()));
}

#[test]
fn users_are_plain_rows() {
    let user = create_user(
        5,
        CreateUser {
            username: "test_user_routes".to_string(),
            email: "test_user_routes@example.com".to_string(),
        },
    );
    assert_eq!(
        user,
        User {
            id: 5,
            username: "test_user_routes".to_string(),
            email: "test_user_routes@example.com".to_string(),
        }
    );
    assert_eq!(get_user(Some(user.duplicate())), Ok(user));
    assert_eq!(get_user(None), Err(ApiError::NotFound));
    assert_eq!(delete_user(0), Err(ApiError::NotFound));
    assert_eq!(delete_user(3), Ok(()));
}

#[test]
fn friend_request_by_ids_needs_both_users() {
    assert_eq!(add_friend_by_ids(true, true), Ok(()));
    assert_eq!(add_friend_by_ids(false, true), Err(ApiError::NotFound));
    assert_eq!(add_friend_by_ids(true, false), Err(ApiError::NotFound));
    assert_eq!(add_friend_by_ids(false, false), Err(ApiError::NotFound));
    assert_eq!(friend_request_outcome(1), FriendRequestOutcome::Sent);
    assert_eq!(friend_request_outcome(0), FriendRequestOutcome::AlreadyExists);
    assert_eq!(FriendRequestOutcome::Sent.message(), "Friend request sent successfully");
    assert_eq!(FriendRequestOutcome::AlreadyExists.message(), "Friend request already exists");
}
