//! The token service: issues and verifies signed identity tokens.
//!
//! A token is stateless. It carries the claims of one user and ends by its
//! own expiry, seven days after it was issued; nothing revokes it earlier.

use vstd::prelude::*;
use vstd::string::StringSliceAdditionalSpecFns;
use crate::error::ApiError;

verus! {

/// How long a token stays valid after it was issued, in seconds.
pub const TOKEN_LIFETIME_SECS: u64 = 604800;

/// A signing key for demonstrations and tests. A deployment injects a key of
/// its own through [`TokenService::new`].
pub const EXAMPLE_SECRET: &'static str = "your-secret-key-change-in-production";

/// The claims that a token carries.
#[derive(Debug, PartialEq, Eq)]
pub struct Claims {
    pub user_id: i32,
    pub username: String,
    pub email: String,
    /// The instant at which the token expires, in seconds since the epoch.
    pub exp: u64,
    /// The instant at which the token was issued, in seconds since the epoch.
    pub iat: u64,
}

/// The mathematical value of [`Claims`].
pub struct ClaimsView {
    pub user_id: i32,
    pub username: Seq<char>,
    pub email: Seq<char>,
    pub exp: u64,
    pub iat: u64,
}

impl View for Claims {
    type V = ClaimsView;

    open spec fn view(&self) -> ClaimsView {
        ClaimsView {
            user_id: self.user_id,
            username: self.username@,
            email: self.email@,
            exp: self.exp,
            iat: self.iat,
        }
    }
}

impl Claims {
    /// A copy of the claims.
    pub fn duplicate(&self) -> (copy: Claims)
        ensures
            copy@ == self@,
    {
        Claims {
            user_id: self.user_id,
            username: self.username.clone(),
            email: self.email.clone(),
            exp: self.exp,
            iat: self.iat,
        }
    }
}

/// Why a token was turned away.
#[derive(Clone, Copy, Debug, PartialEq, Eq, Structural)]
pub enum AuthError {
    /// The token is malformed, was signed with another key, or does not hold
    /// the claims of this service.
    InvalidSignature,
    /// The token was genuine and has reached its expiry.
    Expired,
}

impl AuthError {
    /// Both kinds reach the caller as `Unauthenticated`.
    pub fn to_api_error(&self) -> (error: ApiError)
        ensures
            error == ApiError::Unauthenticated,
    {
        ApiError::Unauthenticated
    }
}

/// What a correctly signed token holds under the five claim names, each as
/// far as it is there with the right JSON type.
#[derive(Debug, PartialEq, Eq)]
pub struct RawClaims {
    pub user_id: Option<i64>,
    pub username: Option<String>,
    pub email: Option<String>,
    pub exp: Option<u64>,
    pub iat: Option<u64>,
}

/// The mathematical value of [`RawClaims`].
pub struct RawClaimsView {
    pub user_id: Option<i64>,
    pub username: Option<Seq<char>>,
    pub email: Option<Seq<char>>,
    pub exp: Option<u64>,
    pub iat: Option<u64>,
}

/// The characters of an optional text.
pub open spec fn chars_of(text: Option<String>) -> Option<Seq<char>> {
    match text {
        Some(t) => Some(t@),
        None => None,
    }
}

impl View for RawClaims {
    type V = RawClaimsView;

    open spec fn view(&self) -> RawClaimsView {
        RawClaimsView {
            user_id: self.user_id,
            username: chars_of(self.username),
            email: chars_of(self.email),
            exp: self.exp,
            iat: self.iat,
        }
    }
}

/// The error type of the `jsonwebtoken` crate.
#[verifier::external_type_specification]
#[verifier::external_body]
pub struct ExJwtError(jsonwebtoken::errors::Error);

/// The token that `jsonwebtoken::encode` makes of five claims under an HMAC
/// key with the default header, or `None` where it fails.
pub uninterp spec fn signed_token(
    user_id: i32,
    username: Seq<char>,
    email: Seq<char>,
    exp: u64,
    iat: u64,
    secret: Seq<u8>,
) -> Option<Seq<char>>;

/// What `jsonwebtoken::decode` reads from a token under an HMAC key when it
/// checks everything but the expiry, or `None` where it turns the token away.
pub uninterp spec fn decoded_token(token: Seq<char>, secret: Seq<u8>) -> Option<RawClaimsView>;

/// Calls `jsonwebtoken::encode` with the default header (HS256) on a JSON
/// object of the five claims. Trusted: the outcome is a function of the
/// claims and the key, named [`signed_token`]; a token that comes back is
/// not empty, being three parts joined by dots; and it is one that
/// `jsonwebtoken::decode`, as [`jwt_decode`] calls it with the same key,
/// reads back as those five claims, since decoding recomputes the signature
/// over the same text and parses the JSON that encoding wrote. Whether a
/// token comes back is not claimed.
#[verifier::external_body]
fn jwt_encode(claims: &Claims, secret: &[u8]) -> (result: Result<
    String,
    jsonwebtoken::errors::Error,
>)
    ensures
        match result {
            Ok(token) => signed_token(
                claims.user_id,
                claims.username@,
                claims.email@,
                claims.exp,
                claims.iat,
                secret@,
            ) == Some(token@) && token@.len() > 0 && decoded_token(token@, secret@) == Some(
                payload_of(claims@),
            ),
            Err(_) => signed_token(
                claims.user_id,
                claims.username@,
                claims.email@,
                claims.exp,
                claims.iat,
                secret@,
            ) is None,
        },
{
    let mut payload = serde_json::Map::new();
    payload.insert("user_id".to_string(), serde_json::Value::from(claims.user_id));
    payload.insert("username".to_string(), serde_json::Value::from(claims.username.as_str()));
    payload.insert("email".to_string(), serde_json::Value::from(claims.email.as_str()));
    payload.insert("exp".to_string(), serde_json::Value::from(claims.exp));
    payload.insert("iat".to_string(), serde_json::Value::from(claims.iat));
    let key = jsonwebtoken::EncodingKey::from_secret(secret);
    jsonwebtoken::encode(&jsonwebtoken::Header::default(), &payload, &key)
}

/// Calls `jsonwebtoken::decode` for HS256 with the expiry check switched off,
/// so that the signature, the token's shape and the presence of `exp` are
/// checked there and the expiry is left to [`check_claims`]. Trusted: the
/// outcome is a function of the token and the key, named [`decoded_token`].
#[verifier::external_body]
fn jwt_decode(token: &str, secret: &[u8]) -> (result: Result<
    RawClaims,
    jsonwebtoken::errors::Error,
>)
    ensures
        match result {
            Ok(raw) => decoded_token(token@, secret@) == Some(raw@),
            Err(_) => decoded_token(token@, secret@) is None,
        },
{
    let mut rules = jsonwebtoken::Validation::new(jsonwebtoken::Algorithm::HS256);
    rules.validate_exp = false;
    let key = jsonwebtoken::DecodingKey::from_secret(secret);
    let doc = jsonwebtoken::decode::<serde_json::Value>(token, &key, &rules)?.claims;
    Ok(RawClaims {
        user_id: doc.get("user_id").and_then(serde_json::Value::as_i64),
        username: doc.get("username").and_then(serde_json::Value::as_str).map(str::to_string),
        email: doc.get("email").and_then(serde_json::Value::as_str).map(str::to_string),
        exp: doc.get("exp").and_then(serde_json::Value::as_u64),
        iat: doc.get("iat").and_then(serde_json::Value::as_u64),
    })
}

/// Reads the system clock through `std::time::SystemTime`: the seconds since
/// the Unix epoch, or `None` where the clock stands before it. Nothing is
/// claimed of the value.
#[verifier::external_body]
fn unix_now() -> (now: Option<u64>) {
    match std::time::SystemTime::now().duration_since(std::time::UNIX_EPOCH) {
        Ok(elapsed) => Some(elapsed.as_secs()),
        Err(_) => None,
    }
}

/// The claims of a token issued for a user at the instant `now`: issued at
/// `now`, expiring one lifetime later.
pub open spec fn claims_at(user_id: i32, username: Seq<char>, email: Seq<char>, now: u64) -> ClaimsView {
    ClaimsView {
        user_id,
        username,
        email,
        exp: (now + TOKEN_LIFETIME_SECS) as u64,
        iat: now,
    }
}

/// `token` is the token of `claims` under `key`: signing made it of them,
/// it is not empty, and decoding reads them back out of it.
pub open spec fn issued_as(token: Seq<char>, claims: ClaimsView, key: Seq<u8>) -> bool {
    &&& token.len() > 0
    &&& signed_token(
        claims.user_id,
        claims.username,
        claims.email,
        claims.exp,
        claims.iat,
        key,
    ) == Some(token)
    &&& decoded_token(token, key) == Some(payload_of(claims))
}

/// The claims that a decoded payload stands for: all five must be there and
/// the user id must be a 32-bit integer.
pub open spec fn claims_of(raw: RawClaimsView) -> Option<ClaimsView> {
    if raw.user_id is Some && raw.username is Some && raw.email is Some && raw.exp is Some
        && raw.iat is Some && i32::MIN <= raw.user_id->0 <= i32::MAX {
        Some(
            ClaimsView {
                user_id: raw.user_id->0 as i32,
                username: raw.username->0,
                email: raw.email->0,
                exp: raw.exp->0,
                iat: raw.iat->0,
            },
        )
    } else {
        None
    }
}

/// The answer to a token at the instant `now`, from what decoding gave:
/// the claims unchanged while `exp > now`, `Expired` from `exp` on, and
/// `InvalidSignature` where decoding failed or claims are missing.
pub open spec fn verdict(decoded: Option<RawClaimsView>, now: u64) -> Result<
    ClaimsView,
    AuthError,
> {
    match decoded {
        None => Err(AuthError::InvalidSignature),
        Some(raw) => match claims_of(raw) {
            None => Err(AuthError::InvalidSignature),
            Some(claims) => if claims.exp > now {
                Ok(claims)
            } else {
                Err(AuthError::Expired)
            },
        },
    }
}

/// The view of an answer to a token.
pub open spec fn answer_view(answer: Result<Claims, AuthError>) -> Result<ClaimsView, AuthError> {
    match answer {
        Ok(claims) => Ok(claims@),
        Err(e) => Err(e),
    }
}

/// The view of an optional payload.
pub open spec fn payload_view(decoded: Option<RawClaims>) -> Option<RawClaimsView> {
    match decoded {
        Some(raw) => Some(raw@),
        None => None,
    }
}

/// Decides on a token from what decoding gave and the current instant.
pub fn check_claims(decoded: Option<RawClaims>, now: u64) -> (answer: Result<Claims, AuthError>)
    ensures
        answer_view(answer) == verdict(payload_view(decoded), now),
{
    let raw = match decoded {
        Some(raw) => raw,
        None => {
            return Err(AuthError::InvalidSignature);
        },
    };
    let RawClaims { user_id, username, email, exp, iat } = raw;
    match (user_id, username, email, exp, iat) {
        (Some(id), Some(username), Some(email), Some(exp), Some(iat)) => {
            if id < -2147483648 || id > 2147483647 {
                return Err(AuthError::InvalidSignature);
            }
            if exp > now {
                Ok(Claims { user_id: id as i32, username, email, exp, iat })
            } else {
                Err(AuthError::Expired)
            }
        },
        _ => Err(AuthError::InvalidSignature),
    }
}

/// The token service, holding the one signing key of the process.
pub struct TokenService {
    secret: Vec<u8>,
}

impl TokenService {
    /// The signing key.
    pub closed spec fn key(&self) -> Seq<u8> {
        self.secret@
    }

    /// A service that signs and verifies with `secret`.
    pub fn new(secret: Vec<u8>) -> (service: TokenService)
        ensures
            service.key() == secret@,
    {
        TokenService { secret }
    }

    /// A service that signs and verifies with [`EXAMPLE_SECRET`].
    pub fn example() -> (service: TokenService)
        ensures
            service.key() == EXAMPLE_SECRET.spec_bytes(),
    {
        TokenService { secret: EXAMPLE_SECRET.as_bytes_vec() }
    }

    /// Issues a token at the instant `now`: the claims are the three given
    /// values, `iat = now` and `exp = now + TOKEN_LIFETIME_SECS`. The token
    /// reads back, under the same key, as exactly these claims. It fails,
    /// with `Internal`, only where signing fails.
    pub fn issue_at(&self, user_id: i32, username: String, email: String, now: u64) -> (result:
        Result<String, ApiError>)
        requires
            now + TOKEN_LIFETIME_SECS <= u64::MAX,
        ensures
            match result {
                Ok(token) => issued_as(
                    token@,
                    claims_at(user_id, username@, email@, now),
                    self.key(),
                ),
                Err(e) => e == ApiError::Internal && signed_token(
                    user_id,
                    username@,
                    email@,
                    (now + TOKEN_LIFETIME_SECS) as u64,
                    now,
                    self.key(),
                ) is None,
            },
    {
        let claims = Claims { user_id, username, email, exp: now + TOKEN_LIFETIME_SECS, iat: now };
        match jwt_encode(&claims, self.secret.as_slice()) {
            Ok(token) => Ok(token),
            Err(_) => Err(ApiError::Internal),
        }
    }

    /// Issues a token at the instant that the system clock shows. It fails,
    /// with `Internal`, where signing fails or the clock shows no instant
    /// that leaves room for the token's lifetime.
    pub fn issue(&self, user_id: i32, username: String, email: String) -> (result: Result<
        String,
        ApiError,
    >)
        ensures
            match result {
                Ok(token) => exists|now: u64|
                    now + TOKEN_LIFETIME_SECS <= u64::MAX && #[trigger] issued_as(
                        token@,
                        claims_at(user_id, username@, email@, now),
                        self.key(),
                    ),
                Err(e) => e == ApiError::Internal,
            },
    {
        match unix_now() {
            Some(now) => {
                if now > u64::MAX - TOKEN_LIFETIME_SECS {
                    return Err(ApiError::Internal);
                }
                let ghost name = username@;
                let ghost mail = email@;
                let result = self.issue_at(user_id, username, email, now);
                proof {
                    if result is Ok {
                        assert(issued_as(
                            result->Ok_0@,
                            claims_at(user_id, name, mail, now),
                            self.key(),
                        ));
                    }
                }
                result
            },
            None => Err(ApiError::Internal),
        }
    }

    /// Verifies a token at the instant `now`: the claims it was issued with
    /// while `exp > now`, `Expired` from `exp` on, `InvalidSignature` for
    /// anything that this key did not sign or that lacks a claim.
    pub fn verify_at(&self, token: &str, now: u64) -> (answer: Result<Claims, AuthError>)
        ensures
            answer_view(answer) == verdict(decoded_token(token@, self.key()), now),
    {
        match jwt_decode(token, self.secret.as_slice()) {
            Ok(raw) => check_claims(Some(raw), now),
            Err(_) => check_claims(None, now),
        }
    }

    /// Verifies a token at the instant that the system clock shows. Where the
    /// clock shows none, no token can be told from an expired one, and a
    /// genuine token is answered with `Expired`.
    pub fn verify(&self, token: &str) -> (answer: Result<Claims, AuthError>)
        ensures
            exists|now: u64|
                answer_view(answer) == #[trigger] verdict(decoded_token(token@, self.key()), now),
    {
        match unix_now() {
            Some(now) => self.verify_at(token, now),
            None => {
                let answer = self.verify_at(token, u64::MAX);
                assert(answer_view(answer) == verdict(
                    decoded_token(token@, self.key()),
                    u64::MAX,
                ));
                answer
            },
        }
    }
}

/// Issues a token for a user under [`EXAMPLE_SECRET`], valid for seven days
/// from now: [`verify_jwt`] reads the same claims back out of it until then.
pub fn create_jwt(user_id: i32, username: String, email: String) -> (result: Result<
    String,
    ApiError,
>)
    ensures
        match result {
            Ok(token) => exists|now: u64|
                now + TOKEN_LIFETIME_SECS <= u64::MAX && #[trigger] issued_as(
                    token@,
                    claims_at(user_id, username@, email@, now),
                    EXAMPLE_SECRET.spec_bytes(),
                ),
            Err(e) => e == ApiError::Internal,
        },
{
    TokenService::example().issue(user_id, username, email)
}

/// Verifies a token under [`EXAMPLE_SECRET`] against the system clock.
pub fn verify_jwt(token: &str) -> (answer: Result<Claims, AuthError>)
    ensures
        exists|now: u64|
            answer_view(answer) == #[trigger] verdict(
                decoded_token(token@, EXAMPLE_SECRET.spec_bytes()),
                now,
            ),
{
    TokenService::example().verify(token)
}

/// A payload that holds all five claims of `claims`.
pub open spec fn payload_of(claims: ClaimsView) -> RawClaimsView {
    RawClaimsView {
        user_id: Some(claims.user_id as i64),
        username: Some(claims.username),
        email: Some(claims.email),
        exp: Some(claims.exp),
        iat: Some(claims.iat),
    }
}

/// A token whose payload holds the claims it was issued with is answered
/// with exactly those claims at every instant before `exp`, and with
/// `Expired` at `exp` and at every instant after it.
pub proof fn claims_hold_until_expiry(claims: ClaimsView, now: u64)
    ensures
        now < claims.exp ==> verdict(Some(payload_of(claims)), now) == Ok::<ClaimsView, AuthError>(
            claims,
        ),
        now >= claims.exp ==> verdict(Some(payload_of(claims)), now) == Err::<
            ClaimsView,
            AuthError,
        >(AuthError::Expired),
{
}

/// A token issued at `now` carries an expiry that lies exactly one lifetime
/// ahead, so that it is accepted from `now` until just before that expiry.
pub proof fn issued_claims_last_a_lifetime(claims: ClaimsView, now: u64, later: u64)
    requires
        claims.iat == now,
        claims.exp == now + TOKEN_LIFETIME_SECS,
    ensures
        later < now + TOKEN_LIFETIME_SECS <==> verdict(Some(payload_of(claims)), later) is Ok,
{
}

/// The round trip of a token. A token that was issued for some claims is
/// answered, under the same key, with exactly those claims at every instant
/// before their `exp`, and with `Expired`, never with `InvalidSignature`,
/// at `exp` and at every instant after it.
pub proof fn issued_token_round_trips(
    token: Seq<char>,
    claims: ClaimsView,
    key: Seq<u8>,
    later: u64,
)
    requires
        issued_as(token, claims, key),
    ensures
        later < claims.exp ==> verdict(decoded_token(token, key), later) == Ok::<
            ClaimsView,
            AuthError,
        >(claims),
        later >= claims.exp ==> verdict(decoded_token(token, key), later) == Err::<
            ClaimsView,
            AuthError,
        >(AuthError::Expired),
{
    claims_hold_until_expiry(claims, later);
}

/// A token issued at `now` is accepted from `now` on for one lifetime and
/// for no longer, with the user's id, name and email, `iat = now` and
/// `exp = now + TOKEN_LIFETIME_SECS`.
pub proof fn issued_token_lasts_a_lifetime(
    token: Seq<char>,
    user_id: i32,
    username: Seq<char>,
    email: Seq<char>,
    key: Seq<u8>,
    now: u64,
    later: u64,
)
    requires
        now + TOKEN_LIFETIME_SECS <= u64::MAX,
        issued_as(token, claims_at(user_id, username, email, now), key),
    ensures
        later < now + TOKEN_LIFETIME_SECS ==> verdict(decoded_token(token, key), later) == Ok::<
            ClaimsView,
            AuthError,
        >(claims_at(user_id, username, email, now)),
        later >= now + TOKEN_LIFETIME_SECS ==> verdict(decoded_token(token, key), later) == Err::<
            ClaimsView,
            AuthError,
        >(AuthError::Expired),
{
    issued_token_round_trips(token, claims_at(user_id, username, email, now), key, later);
}

} // verus!
