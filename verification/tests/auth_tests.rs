use rust_rmce_api::error::ApiError;
use rust_rmce_api::models::auth::{Login, Register};
use rust_rmce_api::models::user::{User, UserWithPassword};
use rust_rmce_api::password::hash_password;
use rust_rmce_api::routes::auth::{
    check_credentials, find_account, grant, is_taken, login, login_at, register, register_with,
    LoginResponse, NewUser,
};
use rust_rmce_api::token::{AuthError, TokenService};

fn stored(id: i32, username: &str, email: &str, password: &str) -> UserWithPassword {
    UserWithPassword {
        id,
        username: username.to_string(),
        email: email.to_string(),
        password: hash_password(password).unwrap(),
    }
}

fn request(username: &str, email: &str, password: &str) -> Register {
    Register {
        username: username.to_string(),
        email: email.to_string(),
        password: password.to_string(),
    }
}

fn credentials(email: &str, password: &str) -> Login {
    Login { email: email.to_string(), password: password.to_string() }
}

#[test]
fn register_returns_the_row_to_create() {
    let users = vec![stored(1, "bob", "bob@test.com", "pw")];
    let row = register(&users, request("alice", "alice@test.com", "SecurePass123!")).unwrap();
    assert_eq!(row.username, "alice");
    assert_eq!(row.email, "alice@test.com");
    assert_ne!(row.password_hash, "SecurePass123!");
    assert_eq!(
        rust_rmce_api::password::check_password("SecurePass123!", &row.password_hash),
        Some(true)
    );
}

#[test]
fn register_conflicts_on_a_taken_email() {
    let users = vec![stored(1, "bob", "bob@test.com", "pw")];
    assert_eq!(
        register(&users, request("alice", "bob@test.com", "x")),
        Err(ApiError::Conflict)
    );
}

#[test]
fn register_conflicts_on_a_taken_username() {
    let users = vec![stored(1, "bob", "bob@test.com", "pw"), stored(2, "al", "al@test.com", "pw")];
    assert_eq!(register(&users, request("al", "new@test.com", "x")), Err(ApiError::Conflict));
}

#[test]
fn register_twice_conflicts() {
    let mut users: Vec<UserWithPassword> = Vec::new();
    let row = register(&users, request("dup", "dup@example.com", "test_password_123")).unwrap();
    users.push(UserWithPassword {
        id: 1,
        username: row.username,
        email: row.email,
        password: row.password_hash,
    });
    assert_eq!(
        register(&users, request("dup", "dup@example.com", "test_password_123")),
        Err(ApiError::Conflict)
    );
}

#[test]
fn register_with_decides_from_the_hash() {
    let users = vec![stored(1, "bob", "bob@test.com", "pw")];
    assert_eq!(
        register_with(&users, request("a", "a@t", "p"), Some("HASH".to_string())),
        Ok(NewUser {
            username: "a".to_string(),
            email: "a@t".to_string(),
            password_hash: "HASH".to_string(),
        })
    );
    assert_eq!(register_with(&users, request("a", "a@t", "p"), None), Err(ApiError::Internal));
    assert_eq!(
        register_with(&users, request("bob", "a@t", "p"), Some("HASH".to_string())),
        Err(ApiError::Conflict)
    );
    assert_eq!(register_with(&users, request("bob", "a@t", "p"), None), Err(ApiError::Conflict));
}

#[test]
fn is_taken_looks_at_both_fields() {
    let users = vec![stored(1, "bob", "bob@test.com", "pw")];
    assert!(is_taken(&users, "bob", "other"));
    assert!(is_taken(&users, "other", "bob@test.com"));
    assert!(!is_taken(&users, "bob@test.com", "bob"));
    assert!(!is_taken(&Vec::new(), "bob", "bob@test.com"));
}

#[test]
fn find_account_gives_the_first_with_the_email() {
    let users = vec![
        stored(1, "a", "a@t", "pw"),
        stored(2, "b", "b@t", "pw"),
        stored(3, "c", "b@t", "pw"),
    ];
    assert_eq!(find_account(&users, "b@t"), Some(1));
    assert_eq!(find_account(&users, "a@t"), Some(0));
    assert_eq!(find_account(&users, "z@t"), None);
}

#[test]
fn login_after_registration_yields_a_token_for_the_registered_user() {
    let tokens = TokenService::new(b"secret".to_vec());
    let row = register(&Vec::new(), request("alice", "alice@test.com", "SecurePass123!")).unwrap();
    let users = vec![UserWithPassword {
        id: 41,
        username: row.username,
        email: row.email,
        password: row.password_hash,
    }];
    let response = login(&users, &credentials("alice@test.com", "SecurePass123!"), &tokens).unwrap();
    assert!(!response.token.is_empty());
    assert_eq!(
        response.user,
        User { id: 41, username: "alice".to_string(), email: "alice@test.com".to_string() }
    );
    let claims = tokens.verify(&response.token).unwrap();
    assert_eq!(claims.user_id, 41);
    assert_eq!(claims.username, "alice");
    assert_eq!(claims.email, "alice@test.com");
}

#[test]
fn login_at_issues_the_token_of_that_instant() {
    let tokens = TokenService::new(b"secret".to_vec());
    let users = vec![stored(7, "u", "u@t", "pw")];
    let response = login_at(&users, &credentials("u@t", "pw"), &tokens, 123).unwrap();
    assert_eq!(response.token, tokens.issue_at(7, "u".to_string(), "u@t".to_string(), 123).unwrap());
    let claims = tokens.verify_at(&response.token, 123).unwrap();
    assert_eq!((claims.iat, claims.exp), (123, 123 + 604_800));
    assert_eq!(tokens.verify_at(&response.token, 123 + 604_800), Err(AuthError::Expired));
}

#[test]
fn login_with_a_wrong_password_is_unauthenticated() {
    let tokens = TokenService::new(b"secret".to_vec());
    let users = vec![stored(7, "u", "u@t", "pw")];
    assert_eq!(
        login(&users, &credentials("u@t", "wrong_password"), &tokens),
        Err(ApiError::Unauthenticated)
    );
    assert_eq!(
        login_at(&users, &credentials("u@t", "wrong_password"), &tokens, 5),
        Err(ApiError::Unauthenticated)
    );
}

#[test]
fn login_with_an_unknown_email_is_unauthenticated() {
    let tokens = TokenService::new(b"secret".to_vec());
    let users = vec![stored(7, "u", "u@t", "pw")];
    assert_eq!(
        login(&users, &credentials("nonexistent@example.com", "wrong_password"), &tokens),
        Err(ApiError::Unauthenticated)
    );
    assert_eq!(
        login_at(&Vec::new(), &credentials("u@t", "pw"), &tokens, 5),
        Err(ApiError::Unauthenticated)
    );
}

#[test]
fn login_against_a_broken_hash_is_internal() {
    let tokens = TokenService::new(b"secret".to_vec());
    let users = vec![UserWithPassword {
        id: 7,
        username: "u".to_string(),
        email: "u@t".to_string(),
        password: "pw".to_string(),
    }];
    assert_eq!(login(&users, &credentials("u@t", "pw"), &tokens), Err(ApiError::Internal));
}

#[test]
fn check_credentials_covers_every_case() {
    let account = UserWithPassword {
        id: 7,
        username: "u".to_string(),
        email: "u@t".to_string(),
        password: "h".to_string(),
    };
    let user = User { id: 7, username: "u".to_string(), email: "u@t".to_string() };
    assert_eq!(check_credentials(Some(&account), Some(true)), Ok(user));
    assert_eq!(check_credentials(Some(&account), Some(false)), Err(ApiError::Unauthenticated));
    assert_eq!(check_credentials(Some(&account), None), Err(ApiError::Internal));
    assert_eq!(check_credentials(None, Some(true)), Err(ApiError::Unauthenticated));
    assert_eq!(check_credentials(None, Some(false)), Err(ApiError::Unauthenticated));
    assert_eq!(check_credentials(None, None), Err(ApiError::Unauthenticated));
}

#[test]
fn grant_needs_a_token() {
    let user = User { id: 7, username: "u".to_string(), email: "u@t".to_string() };
    assert_eq!(
        grant(user.duplicate(), Some("T".to_string())),
        Ok(LoginResponse { token: "T".to_string(), user: user.duplicate() })
    );
    assert_eq!(grant(user, None), Err(ApiError::Internal));
}

#[test]
fn to_user_drops_the_password() {
    let account = stored(7, "u", "u@t", "pw");
    assert_eq!(
        account.to_user(),
        User { id: 7, username: "u".to_string(), email: "u@t".to_string() }
    );
}

#[test]
fn a_wrong_password_and_an_unknown_email_are_answered_alike() {
    let tokens = TokenService::new(b"secret".to_vec());
    let users = vec![stored(7, "u", "u@t", "pw")];
    let wrong_password = login(&users, &credentials("u@t", "not-pw"), &tokens);
    let unknown_email = login(&users, &credentials("nobody@t", "pw"), &tokens);
    assert_eq!(wrong_password, Err(ApiError::Unauthenticated));
    assert_eq!(wrong_password, unknown_email);
}
