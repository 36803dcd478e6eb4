//! The identity middleware: which paths ask for an identity, and whose
//! identity a request carries.

use vstd::prelude::*;
use crate::error::ApiError;
use crate::text::strip_prefix;
use crate::token::{answer_view, decoded_token, verdict, AuthError, Claims, ClaimsView, TokenService};

verus! {

/// The scheme word, with its blank, that opens a bearer header.
pub open spec fn bearer_prefix() -> Seq<char> {
    "Bearer "@
}

/// The token that an `Authorization` header carries: what follows the
/// scheme, where the header opens with it.
pub open spec fn bearer_part(header: Seq<char>) -> Option<Seq<char>> {
    if bearer_prefix().is_prefix_of(header) {
        Some(header.skip(bearer_prefix().len() as int))
    } else {
        None
    }
}

/// The token that an `Authorization` header carries.
pub fn bearer_token<'a>(header: &'a str) -> (token: Option<&'a str>)
    ensures
        match token {
            Some(t) => bearer_part(header@) == Some(t@),
            None => bearer_part(header@) is None,
        },
{
    match strip_prefix(header, "Bearer ") {
        Some(rest) => {
            proof {
                assert((bearer_prefix() + rest@).skip(bearer_prefix().len() as int) =~= rest@);
                assert(bearer_prefix().is_prefix_of(header@)) by {
                    assert(header@.subrange(0, bearer_prefix().len() as int) =~= bearer_prefix());
                }
            }
            Some(rest)
        },
        None => None,
    }
}

/// Whose identity a request carries at the instant `now`, given its
/// `Authorization` header if it has one: the claims of the bearer token
/// where it verifies, and `Unauthenticated` for a missing header, another
/// scheme, a forged or malformed token and an expired one alike.
pub open spec fn identity(header: Option<Seq<char>>, key: Seq<u8>, now: u64) -> Result<
    ClaimsView,
    ApiError,
> {
    match header {
        None => Err(ApiError::Unauthenticated),
        Some(text) => match bearer_part(text) {
            None => Err(ApiError::Unauthenticated),
            Some(token) => match verdict(decoded_token(token, key), now) {
                Ok(claims) => Ok(claims),
                Err(_) => Err(ApiError::Unauthenticated),
            },
        },
    }
}

/// The view of the middleware's answer.
pub open spec fn identity_view(answer: Result<Claims, ApiError>) -> Result<ClaimsView, ApiError> {
    match answer {
        Ok(claims) => Ok(claims@),
        Err(e) => Err(e),
    }
}

/// The characters of an optional header.
pub open spec fn header_view(header: Option<&str>) -> Option<Seq<char>> {
    match header {
        Some(text) => Some(text@),
        None => None,
    }
}

/// What the middleware answers once the token service has spoken: the
/// claims it accepted, and `Unauthenticated` for either of its refusals.
pub fn conclude(verified: Result<Claims, AuthError>) -> (answer: Result<Claims, ApiError>)
    ensures
        answer == match verified {
            Ok(claims) => Ok::<Claims, ApiError>(claims),
            Err(_) => Err::<Claims, ApiError>(ApiError::Unauthenticated),
        },
{
    match verified {
        Ok(claims) => Ok(claims),
        Err(e) => Err(e.to_api_error()),
    }
}

/// Identifies the caller of a request at the instant `now`.
pub fn auth_middleware_at(header: Option<&str>, tokens: &TokenService, now: u64) -> (answer: Result<
    Claims,
    ApiError,
>)
    ensures
        identity_view(answer) == identity(header_view(header), tokens.key(), now),
{
    let text = match header {
        Some(text) => text,
        None => {
            return Err(ApiError::Unauthenticated);
        },
    };
    match bearer_token(text) {
        Some(token) => conclude(tokens.verify_at(token, now)),
        None => Err(ApiError::Unauthenticated),
    }
}

/// Identifies the caller of a request at the instant that the system clock
/// shows.
pub fn auth_middleware(header: Option<&str>, tokens: &TokenService) -> (answer: Result<
    Claims,
    ApiError,
>)
    ensures
        exists|now: u64|
            identity_view(answer) == #[trigger] identity(header_view(header), tokens.key(), now),
{
    let text = match header {
        Some(text) => text,
        None => {
            assert(identity(header_view(header), tokens.key(), 0) == Err::<ClaimsView, ApiError>(
                ApiError::Unauthenticated,
            ));
            return Err(ApiError::Unauthenticated);
        },
    };
    match bearer_token(text) {
        Some(token) => {
            let verified = tokens.verify(token);
            proof {
                let now = choose|now: u64|
                    answer_view(verified) == #[trigger] verdict(
                        decoded_token(token@, tokens.key()),
                        now,
                    );
                assert(identity_view(
                    match verified {
                        Ok(claims) => Ok::<Claims, ApiError>(claims),
                        Err(_) => Err::<Claims, ApiError>(ApiError::Unauthenticated),
                    },
                ) == identity(header_view(header), tokens.key(), now));
            }
            conclude(verified)
        },
        None => {
            assert(identity(header_view(header), tokens.key(), 0) == Err::<ClaimsView, ApiError>(
                ApiError::Unauthenticated,
            ));
            Err(ApiError::Unauthenticated)
        },
    }
}

/// `path` is `prefix` itself or lies below it.
pub open spec fn lies_under(path: Seq<char>, prefix: Seq<char>) -> bool {
    prefix.is_prefix_of(path) && (path.len() == prefix.len() || path[prefix.len() as int] == '/')
}

/// Whether `path` is `prefix` itself or lies below it.
pub fn path_lies_under(path: &str, prefix: &str) -> (under: bool)
    ensures
        under == lies_under(path@, prefix@),
{
    match strip_prefix(path, prefix) {
        Some(rest) => {
            proof {
                assert(prefix@.is_prefix_of(path@)) by {
                    assert(path@.subrange(0, prefix@.len() as int) =~= prefix@);
                }
                if rest@.len() > 0 {
                    assert(path@[prefix@.len() as int] == rest@[0]);
                }
            }
            rest.unicode_len() == 0 || rest.get_char(0) == '/'
        },
        None => false,
    }
}

/// The paths that ask for an identity: routes, friends, the challenge and
/// leaderboard API and sensor data. Registration, login and the public
/// listings of posts and users are open.
pub open spec fn protected(path: Seq<char>) -> bool {
    ||| lies_under(path, "/routes"@)
    ||| lies_under(path, "/friends"@)
    ||| lies_under(path, "/api"@)
    ||| lies_under(path, "/sensor-data"@)
}

/// Whether a request to `path` must carry an identity.
pub fn is_protected(path: &str) -> (asks: bool)
    ensures
        asks == protected(path@),
{
    path_lies_under(path, "/routes") || path_lies_under(path, "/friends") || path_lies_under(
        path,
        "/api",
    ) || path_lies_under(path, "/sensor-data")
}

/// What a request is answered with before any handler runs: an open path
/// passes without identity, a protected one passes with the caller's claims
/// or not at all.
pub fn gate(path: &str, header: Option<&str>, tokens: &TokenService) -> (answer: Result<
    Option<Claims>,
    ApiError,
>)
    ensures
        !protected(path@) ==> answer == Ok::<Option<Claims>, ApiError>(None),
        protected(path@) ==> exists|now: u64|
            match answer {
                Ok(Some(claims)) => #[trigger] identity(header_view(header), tokens.key(), now)
                    == Ok::<ClaimsView, ApiError>(claims@),
                Ok(None) => false,
                Err(e) => identity(header_view(header), tokens.key(), now) == Err::<
                    ClaimsView,
                    ApiError,
                >(e),
            },
{
    if !is_protected(path) {
        return Ok(None);
    }
    match auth_middleware(header, tokens) {
        Ok(claims) => Ok(Some(claims)),
        Err(e) => Err(e),
    }
}

} // verus!
