use rust_rmce_api::error::ApiError;
use rust_rmce_api::middleware::{
    auth_middleware, auth_middleware_at, bearer_token, conclude, gate, is_protected, path_lies_under,
};
use rust_rmce_api::token::{AuthError, Claims, TokenService};

#[test]
fn bearer_token_is_what_follows_the_scheme() {
    assert_eq!(bearer_token("Bearer abc.def.ghi"), Some("abc.def.ghi"));
    assert_eq!(bearer_token("Bearer "), Some(""));
    assert_eq!(bearer_token("Bearer  x"), Some(" x"));
    assert_eq!(bearer_token("Bearer é"), Some("é"));
}

#[test]
fn other_headers_carry_no_bearer_token() {
    assert_eq!(bearer_token("bearer abc"), None);
    assert_eq!(bearer_token("Bearer"), None);
    assert_eq!(bearer_token("Basic dXNlcjpwdw=="), None);
    assert_eq!(bearer_token(" Bearer abc"), None);
    assert_eq!(bearer_token(""), None);
}

#[test]
fn request_without_token_is_unauthenticated() {
    let tokens = TokenService::new(b"s".to_vec());
    assert_eq!(auth_middleware(None, &tokens), Err(ApiError::Unauthenticated));
    assert_eq!(auth_middleware_at(None, &tokens, 0), Err(ApiError::Unauthenticated));
}

#[test]
fn request_with_an_invalid_token_is_unauthenticated() {
    let tokens = TokenService::new(b"s".to_vec());
    assert_eq!(
        auth_middleware(Some("Bearer invalid.token.here"), &tokens),
        Err(ApiError::Unauthenticated)
    );
    assert_eq!(auth_middleware(Some("invalid.token.here"), &tokens), Err(ApiError::Unauthenticated));
}

#[test]
fn request_with_a_good_token_carries_its_claims() {
    let tokens = TokenService::new(b"s".to_vec());
    let token = tokens.issue_at(5, "u".to_string(), "e".to_string(), 100).unwrap();
    let header = format!("Bearer {}", token);
    let claims = auth_middleware_at(Some(&header), &tokens, 200).unwrap();
    assert_eq!(
        claims,
        Claims {
            user_id: 5,
            username: "u".to_string(),
            email: "e".to_string(),
            exp: 100 + 604_800,
            iat: 100,
        }
    );
    // the bare token, without the scheme, is no bearer header
    assert_eq!(auth_middleware_at(Some(&token), &tokens, 200), Err(ApiError::Unauthenticated));
}

#[test]
fn an_expired_token_and_a_foreign_one_are_unauthenticated_alike() {
    let tokens = TokenService::new(b"s".to_vec());
    let token = tokens.issue_at(5, "u".to_string(), "e".to_string(), 100).unwrap();
    let header = format!("Bearer {}", token);
    assert_eq!(
        auth_middleware_at(Some(&header), &tokens, 100 + 604_800),
        Err(ApiError::Unauthenticated)
    );
    let others = TokenService::new(b"t".to_vec());
    assert_eq!(auth_middleware_at(Some(&header), &others, 200), Err(ApiError::Unauthenticated));
}

#[test]
fn the_clock_of_the_middleware_is_the_system_clock() {
    let tokens = TokenService::new(b"s".to_vec());
    let fresh = tokens.issue(5, "u".to_string(), "e".to_string()).unwrap();
    assert_eq!(auth_middleware(Some(&format!("Bearer {}", fresh)), &tokens).unwrap().user_id, 5);
    let old = tokens.issue_at(5, "u".to_string(), "e".to_string(), 100).unwrap();
    assert_eq!(
        auth_middleware(Some(&format!("Bearer {}", old)), &tokens),
        Err(ApiError::Unauthenticated)
    );
}

#[test]
fn conclude_maps_both_refusals() {
    let claims = || Claims {
        user_id: 1,
        username: "a".to_string(),
        email: "b".to_string(),
        exp: 2,
        iat: 1,
    };
    assert_eq!(conclude(Ok(claims())), Ok(claims()));
    assert_eq!(conclude(Err(AuthError::Expired)), Err(ApiError::Unauthenticated));
    assert_eq!(conclude(Err(AuthError::InvalidSignature)), Err(ApiError::Unauthenticated));
}

#[test]
fn protected_paths() {
    for path in [
        "/routes",
        "/routes/",
        "/routes/12",
        "/routes/12/score",
        "/friends",
        "/friends/add/3",
        "/api/challenges",
        "/api/leaderboard/route/4",
        "/api",
        "/sensor-data/bulk",
        "/sensor-data",
    ] {
        assert!(is_protected(path), "{}", path);
    }
}

#[test]
fn open_paths() {
    for path in [
        "/",
        "",
        "/auth/login",
        "/auth/register",
        "/posts",
        "/posts/3",
        "/users",
        "/routesx",
        "/apiary",
        "/friendship",
        "/sensor-data2",
        "routes",
        "/x/routes",
    ] {
        assert!(!is_protected(path), "{}", path);
    }
}

#[test]
fn lies_under_means_the_prefix_or_below_it() {
    assert!(path_lies_under("/a", "/a"));
    assert!(path_lies_under("/a/", "/a"));
    assert!(path_lies_under("/a/b", "/a"));
    assert!(!path_lies_under("/ab", "/a"));
    assert!(!path_lies_under("/", "/a"));
    assert!(path_lies_under("/x", ""));
    assert!(!path_lies_under("x", ""));
    assert!(path_lies_under("", ""));
}

#[test]
fn gate_lets_open_paths_through_and_asks_the_others_for_identity() {
    let tokens = TokenService::new(b"s".to_vec());
    assert_eq!(gate("/auth/login", None, &tokens), Ok(None));
    assert_eq!(gate("/posts", Some("Bearer nonsense"), &tokens), Ok(None));
    assert_eq!(gate("/routes", None, &tokens), Err(ApiError::Unauthenticated));
    assert_eq!(
        gate("/routes", Some("Bearer invalid.token.here"), &tokens),
        Err(ApiError::Unauthenticated)
    );
    let token = tokens.issue(5, "u".to_string(), "e".to_string()).unwrap();
    let answer = gate("/routes/1", Some(&format!("Bearer {}", token)), &tokens).unwrap();
    assert_eq!(answer.unwrap().user_id, 5);
}
