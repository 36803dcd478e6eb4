use rust_rmce_api::error::{deleted_or_404, found_or_404, ApiError};
use rust_rmce_api::guard::{authorize_mutation, require_owner, Decision};
use rust_rmce_api::models::route::{CreateRoute, Route, UpdateRoute};
use rust_rmce_api::models::score::{CreateScore, Score};
use rust_rmce_api::routes::parcours::{
    create_route, delete_route, get_public_routes, get_route, get_routes, get_user_routes,
    submit_score, update_route, RouteQuery,
};
use rust_rmce_api::token::Claims;

fn caller(user_id: i32) -> Claims {
    Claims {
        user_id,
        username: format!("user{}", user_id),
        email: format!("user{}@test.com", user_id),
        exp: 2_000,
        iat: 1_000,
    }
}

fn geometry(tag: &str) -> serde_json::Value {
    let mut object = serde_json::Map::new();
    object.insert("type".to_string(), serde_json::Value::from("LineString"));
    object.insert("tag".to_string(), serde_json::Value::from(tag));
    serde_json::Value::Object(object)
}

fn route(id: i32, owner: i32, public: bool, created_at: Option<i64>) -> Route {
    Route {
        id,
        user_id: owner,
        name: format!("route{}", id),
        description: Some("Only mine".to_string()),
        is_public: public,
        path_data: geometry("stored"),
        distance_meters: Some(5_000),
        created_at,
        updated_at: created_at,
    }
}

fn no_patch() -> UpdateRoute {
    UpdateRoute { name: None, description: None, is_public: None, path_data: None, distance_meters: None }
}

#[test]
fn guard_allows_exactly_the_owner() {
    assert_eq!(authorize_mutation(4, 4), Decision::Allow);
    assert_eq!(authorize_mutation(4, 5), Decision::Deny);
    assert_eq!(authorize_mutation(i32::MIN, i32::MAX), Decision::Deny);
    assert_eq!(authorize_mutation(0, 0), Decision::Allow);
}

#[test]
fn lookup_comes_before_the_guard() {
    assert_eq!(require_owner(None, 4), Err(ApiError::NotFound));
    assert_eq!(require_owner(Some(5), 4), Err(ApiError::Forbidden));
    assert_eq!(require_owner(Some(4), 4), Ok(()));
}

#[test]
fn user_cannot_modify_the_route_of_another() {
    let owner = caller(1);
    let hacker = caller(2);
    let stored = create_route(
        10,
        Some(100),
        &owner,
        CreateRoute {
            name: "My secret route".to_string(),
            description: Some("Only mine".to_string()),
            is_public: false,
            path_data: geometry("a"),
            distance_meters: Some(5_000),
        },
    );
    let mut patch = no_patch();
    patch.name = Some("Hacked route".to_string());
    assert_eq!(update_route(Some(stored), &hacker, patch, 200), Err(ApiError::Forbidden));
    assert_eq!(delete_route(Some(1), &hacker), Err(ApiError::Forbidden));
}

#[test]
fn owner_updates_the_route() {
    let owner = caller(1);
    let mut patch = no_patch();
    patch.name = Some("Parc Central - Updated".to_string());
    let updated = update_route(Some(route(10, 1, true, Some(100))), &owner, patch, 200).unwrap();
    let mut expected = route(10, 1, true, Some(100));
    expected.name = "Parc Central - Updated".to_string();
    expected.updated_at = Some(200);
    assert_eq!(updated, expected);
    assert_eq!(delete_route(Some(1), &owner), Ok(()));
}

#[test]
fn update_of_an_unknown_route_is_not_found_even_for_its_would_be_owner() {
    assert_eq!(update_route(None, &caller(1), no_patch(), 200), Err(ApiError::NotFound));
    assert_eq!(delete_route(None, &caller(1)), Err(ApiError::NotFound));
}

#[test]
fn update_merges_field_by_field() {
    let owner = caller(1);
    let patch = UpdateRoute {
        name: None,
        description: Some("new text".to_string()),
        is_public: Some(false),
        path_data: Some(geometry("patched")),
        distance_meters: None,
    };
    let updated = update_route(Some(route(10, 1, true, Some(100))), &owner, patch, 300).unwrap();
    assert_eq!(
        updated,
        Route {
            id: 10,
            user_id: 1,
            name: "route10".to_string(),
            description: Some("new text".to_string()),
            is_public: false,
            path_data: geometry("patched"),
            distance_meters: Some(5_000),
            created_at: Some(100),
            updated_at: Some(300),
        }
    );
}

#[test]
fn empty_patch_only_stamps_the_update() {
    let mut stored = route(10, 1, true, Some(100));
    stored.description = None;
    stored.distance_meters = None;
    let updated = update_route(Some(route_without_extras()), &caller(1), no_patch(), 300).unwrap();
    stored.updated_at = Some(300);
    assert_eq!(updated, stored);
}

fn route_without_extras() -> Route {
    let mut stored = route(10, 1, true, Some(100));
    stored.description = None;
    stored.distance_meters = None;
    stored
}

#[test]
fn patch_sets_a_distance_where_there_was_none() {
    let mut patch = no_patch();
    patch.distance_meters = Some(5_500);
    let updated = update_route(Some(route_without_extras()), &caller(1), patch, 300).unwrap();
    assert_eq!(updated.distance_meters, Some(5_500));
    assert_eq!(updated.description, None);
}

#[test]
fn create_route_belongs_to_the_caller() {
    let created = create_route(
        3,
        Some(77),
        &caller(9),
        CreateRoute {
            name: "Parc Central".to_string(),
            description: None,
            is_public: true,
            path_data: geometry("g"),
            distance_meters: Some(5_000),
        },
    );
    assert_eq!(
        created,
        Route {
            id: 3,
            user_id: 9,
            name: "Parc Central".to_string(),
            description: None,
            is_public: true,
            path_data: geometry("g"),
            distance_meters: Some(5_000),
            created_at: Some(77),
            updated_at: Some(77),
        }
    );
}

#[test]
fn get_route_is_the_lookup_or_not_found() {
    assert_eq!(get_route(Some(route(1, 1, true, None))), Ok(route(1, 1, true, None)));
    assert_eq!(get_route(None), Err(ApiError::NotFound));
}

#[test]
fn routes_are_filtered_and_listed_newest_first() {
    let all = || {
        vec![
            route(1, 1, true, Some(10)),
            route(2, 2, false, Some(30)),
            route(3, 1, false, Some(20)),
            route(4, 1, true, Some(20)),
            route(5, 2, true, None),
        ]
    };
    let ids = |routes: Vec<Route>| routes.iter().map(|r| r.id).collect::<Vec<i32>>();
    assert_eq!(ids(get_routes(all(), RouteQuery { user_id: None, is_public: None })), vec![5, 2, 4, 3, 1]);
    assert_eq!(ids(get_routes(all(), RouteQuery { user_id: Some(1), is_public: None })), vec![4, 3, 1]);
    assert_eq!(ids(get_routes(all(), RouteQuery { user_id: None, is_public: Some(false) })), vec![2, 3]);
    assert_eq!(ids(get_routes(all(), RouteQuery { user_id: Some(1), is_public: Some(true) })), vec![4, 1]);
    assert_eq!(ids(get_routes(all(), RouteQuery { user_id: Some(3), is_public: None })), Vec::<i32>::new());
    assert_eq!(ids(get_user_routes(all(), 2)), vec![5, 2]);
    assert_eq!(ids(get_public_routes(all())), vec![5, 4, 1]);
    assert_eq!(ids(get_public_routes(Vec::new())), Vec::<i32>::new());
}

#[test]
fn listing_keeps_the_rows_whole() {
    let listed = get_user_routes(vec![route(1, 1, true, Some(10)), route(2, 2, true, Some(5))], 1);
    assert_eq!(listed, vec![route(1, 1, true, Some(10))]);
}

#[test]
fn submit_score_needs_the_route() {
    let run = CreateScore {
        time_seconds: 2_400,
        max_speed_kmh: Some(18),
        avg_speed_kmh: Some(15),
        max_g_force: None,
        max_inclination_degrees: Some(-3),
        max_sound_db: Some(85),
    };
    assert_eq!(submit_score(false, 1, Some(5), &caller(4), 9, run), Err(ApiError::NotFound));
    assert_eq!(
        submit_score(true, 1, Some(5), &caller(4), 9, run),
        Ok(Score {
            id: 1,
            route_id: 9,
            user_id: 4,
            time_seconds: 2_400,
            max_speed_kmh: Some(18),
            avg_speed_kmh: Some(15),
            max_g_force: None,
            max_inclination_degrees: Some(-3),
            max_sound_db: Some(85),
            created_at: Some(5),
        })
    );
}

#[test]
fn lookups_and_deletes_answer_404_on_nothing() {
    assert_eq!(found_or_404(Some(3)), Ok(3));
    assert_eq!(found_or_404::<i32>(None), Err(ApiError::NotFound));
    assert_eq!(deleted_or_404(1), Ok(()));
    assert_eq!(deleted_or_404(2), Ok(()));
    assert_eq!(deleted_or_404(0), Err(ApiError::NotFound));
}

#[test]
fn status_codes() {
    assert_eq!(ApiError::Unauthenticated.status_code(), 401);
    assert_eq!(ApiError::Forbidden.status_code(), 403);
    assert_eq!(ApiError::NotFound.status_code(), 404);
    assert_eq!(ApiError::Conflict.status_code(), 409);
    assert_eq!(ApiError::Validation.status_code(), 422);
    assert_eq!(ApiError::Internal.status_code(), 500);
}

#[test]
fn an_existence_check_lets_through_or_answers_404() {
    assert_eq!(rust_rmce_api::error::exists_or_404(true), Ok(()));
    assert_eq!(rust_rmce_api::error::exists_or_404(false), Err(ApiError::NotFound));
}
