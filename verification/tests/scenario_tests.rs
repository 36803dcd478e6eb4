use rust_rmce_api::middleware::gate;
use rust_rmce_api::models::auth::{Login, Register};
use rust_rmce_api::models::route::CreateRoute;
use rust_rmce_api::models::score::{CreateScore, LeaderboardEntry};
use rust_rmce_api::models::user::{User, UserWithPassword};
use rust_rmce_api::routes::auth::{login, register};
use rust_rmce_api::routes::challenges::get_route_leaderboard;
use rust_rmce_api::routes::parcours::{create_route, submit_score};
use rust_rmce_api::token::TokenService;

#[test]
fn register_login_create_route_submit_score_and_read_the_leaderboard() {
    let tokens = TokenService::new(b"end-to-end".to_vec());
    let mut accounts: Vec<UserWithPassword> = Vec::new();

    // register
    let row = register(
        &accounts,
        Register {
            username: "alice".to_string(),
            email: "alice@test.com".to_string(),
            password: "SecurePass123!".to_string(),
        },
    )
    .unwrap();
    accounts.push(UserWithPassword {
        id: 1,
        username: row.username,
        email: row.email,
        password: row.password_hash,
    });

    // login
    let session = login(
        &accounts,
        &Login { email: "alice@test.com".to_string(), password: "SecurePass123!".to_string() },
        &tokens,
    )
    .unwrap();
    let header = format!("Bearer {}", session.token);
    let claims = gate("/routes", Some(&header), &tokens).unwrap().unwrap();
    assert_eq!(claims.user_id, 1);

    // create the route
    let route = create_route(
        10,
        Some(1_000),
        &claims,
        CreateRoute {
            name: "Loop".to_string(),
            description: None,
            is_public: true,
            path_data: serde_json::Value::Null,
            distance_meters: None,
        },
    );
    assert_eq!(route.user_id, 1);
    assert_eq!(route.name, "Loop");

    // submit the score
    let score = submit_score(
        true,
        100,
        Some(2_000),
        &claims,
        route.id,
        CreateScore {
            time_seconds: 100,
            max_speed_kmh: None,
            avg_speed_kmh: None,
            max_g_force: None,
            max_inclination_degrees: None,
            max_sound_db: None,
        },
    )
    .unwrap();

    // read the leaderboard
    let users: Vec<User> = accounts.iter().map(|a| a.to_user()).collect();
    let board = get_route_leaderboard(&vec![score], &users, route.id);
    assert_eq!(
        board,
        vec![LeaderboardEntry {
            user_id: 1,
            username: "alice".to_string(),
            time_seconds: 100,
            max_speed_kmh: None,
            created_at: Some(2_000),
        }]
    );
}
