//! Registration and login.

use vstd::prelude::*;
use crate::error::ApiError;
use crate::models::auth::{Login, Register};
use crate::models::user::{User, UserView, UserWithPassword};
use crate::password::{bcrypt_verdict, check_password, hash_password};
use crate::text::str_equals;
use crate::token::{
    claims_at, decoded_token, issued_as, issued_token_lasts_a_lifetime, signed_token, verdict,
    AuthError, ClaimsView, TokenService, TOKEN_LIFETIME_SECS,
};

verus! {

/// The answer to a successful login.
#[derive(Debug, PartialEq, Eq)]
pub struct LoginResponse {
    pub token: String,
    pub user: User,
}

/// The mathematical value of a [`LoginResponse`].
pub struct LoginResponseView {
    pub token: Seq<char>,
    pub user: UserView,
}

impl View for LoginResponse {
    type V = LoginResponseView;

    open spec fn view(&self) -> LoginResponseView {
        LoginResponseView { token: self.token@, user: self.user@ }
    }
}

/// The row that a successful registration asks the credential store to
/// create; the store assigns the id.
#[derive(Debug, PartialEq, Eq)]
pub struct NewUser {
    pub username: String,
    pub email: String,
    pub password_hash: String,
}

/// The mathematical value of a [`NewUser`].
pub struct NewUserView {
    pub username: Seq<char>,
    pub email: Seq<char>,
    pub password_hash: Seq<char>,
}

impl View for NewUser {
    type V = NewUserView;

    open spec fn view(&self) -> NewUserView {
        NewUserView {
            username: self.username@,
            email: self.email@,
            password_hash: self.password_hash@,
        }
    }
}

/// The stored user holds the username or the email.
pub open spec fn collides(user: UserWithPassword, username: Seq<char>, email: Seq<char>) -> bool {
    user.email@ == email || user.username@ == username
}

/// Some stored user already holds the username or the email.
pub open spec fn taken(users: Seq<UserWithPassword>, username: Seq<char>, email: Seq<char>) -> bool {
    exists|i: int| 0 <= i < users.len() && collides(#[trigger] users[i], username, email)
}

/// `i` is the first stored user with this email.
pub open spec fn account_at(users: Seq<UserWithPassword>, email: Seq<char>, i: int) -> bool {
    &&& 0 <= i < users.len()
    &&& users[i].email@ == email
    &&& forall|j: int| 0 <= j < i ==> (#[trigger] users[j]).email@ != email
}

/// No stored user has this email.
pub open spec fn no_account(users: Seq<UserWithPassword>, email: Seq<char>) -> bool {
    forall|j: int| 0 <= j < users.len() ==> (#[trigger] users[j]).email@ != email
}

/// Whether some stored user already holds the username or the email.
pub fn is_taken(users: &Vec<UserWithPassword>, username: &str, email: &str) -> (hit: bool)
    ensures
        hit == taken(users@, username@, email@),
{
    let mut i: usize = 0;
    while i < users.len()
        invariant
            i <= users.len(),
            forall|j: int| 0 <= j < i ==> !collides(#[trigger] users[j], username@, email@),
        decreases users.len() - i,
    {
        if str_equals(users[i].email.as_str(), email) || str_equals(
            users[i].username.as_str(),
            username,
        ) {
            return true;
        }
        i += 1;
    }
    false
}

/// The first stored user with this email.
pub fn find_account(users: &Vec<UserWithPassword>, email: &str) -> (found: Option<usize>)
    ensures
        match found {
            Some(i) => account_at(users@, email@, i as int),
            None => no_account(users@, email@),
        },
{
    let mut i: usize = 0;
    while i < users.len()
        invariant
            i <= users.len(),
            forall|j: int| 0 <= j < i ==> (#[trigger] users[j]).email@ != email@,
        decreases users.len() - i,
    {
        if str_equals(users[i].email.as_str(), email) {
            return Some(i);
        }
        i += 1;
    }
    None
}

/// What registration answers once the password has been hashed: `Conflict`
/// where the username or the email is taken, `Internal` where hashing failed,
/// and otherwise the row to create.
pub open spec fn registration(
    users: Seq<UserWithPassword>,
    username: Seq<char>,
    email: Seq<char>,
    hashed: Option<Seq<char>>,
) -> Result<NewUserView, ApiError> {
    if taken(users, username, email) {
        Err(ApiError::Conflict)
    } else {
        match hashed {
            Some(hash) => Ok(NewUserView { username, email, password_hash: hash }),
            None => Err(ApiError::Internal),
        }
    }
}

/// The view of a registration's answer.
pub open spec fn registration_view(answer: Result<NewUser, ApiError>) -> Result<
    NewUserView,
    ApiError,
> {
    match answer {
        Ok(row) => Ok(row@),
        Err(e) => Err(e),
    }
}

/// The characters of an optional text.
pub open spec fn hash_view(hashed: Option<String>) -> Option<Seq<char>> {
    match hashed {
        Some(h) => Some(h@),
        None => None,
    }
}

/// Decides a registration from the stored users that might collide with it
/// and the outcome of hashing its password.
pub fn register_with(users: &Vec<UserWithPassword>, request: Register, hashed: Option<String>) -> (answer:
    Result<NewUser, ApiError>)
    ensures
        registration_view(answer) == registration(
            users@,
            request.username@,
            request.email@,
            hash_view(hashed),
        ),
{
    if is_taken(users, request.username.as_str(), request.email.as_str()) {
        return Err(ApiError::Conflict);
    }
    match hashed {
        Some(hash) => Ok(
            NewUser { username: request.username, email: request.email, password_hash: hash },
        ),
        None => Err(ApiError::Internal),
    }
}

/// Registers a user: `Conflict` exactly where the username or the email is
/// taken; otherwise the password is hashed and the row to create is returned,
/// or `Internal` where hashing failed. The hash in the row is one that the
/// password check confirms for the password of the request.
pub fn register(users: &Vec<UserWithPassword>, request: Register) -> (answer: Result<
    NewUser,
    ApiError,
>)
    ensures
        taken(users@, request.username@, request.email@) <==> answer == Err::<NewUser, ApiError>(
            ApiError::Conflict,
        ),
        match answer {
            Ok(row) => row.username@ == request.username@ && row.email@ == request.email@
                && bcrypt_verdict(request.password@, row.password_hash@) == Some(true),
            Err(e) => e == ApiError::Conflict || e == ApiError::Internal,
        },
{
    if is_taken(users, request.username.as_str(), request.email.as_str()) {
        return Err(ApiError::Conflict);
    }
    let hashed = hash_password(request.password.as_str());
    register_with(users, request, hashed)
}

/// What a login attempt on a stored account answers, given what the password
/// check said: the user where the password matched, `Unauthenticated` where
/// it did not, `Internal` where the comparison itself failed.
pub open spec fn credentials_verdict(account: UserWithPassword, checked: Option<bool>) -> Result<
    UserView,
    ApiError,
> {
    match checked {
        Some(true) => Ok(account.public()),
        Some(false) => Err(ApiError::Unauthenticated),
        None => Err(ApiError::Internal),
    }
}

/// Decides on the credentials of a login from the stored account, if any,
/// and from what the password check said. No account is `Unauthenticated`,
/// whatever the comparison said.
pub fn check_credentials(account: Option<&UserWithPassword>, checked: Option<bool>) -> (answer:
    Result<User, ApiError>)
    ensures
        match account {
            None => answer == Err::<User, ApiError>(ApiError::Unauthenticated),
            Some(stored) => match answer {
                Ok(user) => credentials_verdict(*stored, checked) == Ok::<UserView, ApiError>(
                    user@,
                ),
                Err(e) => credentials_verdict(*stored, checked) == Err::<UserView, ApiError>(e),
            },
        },
{
    match account {
        None => Err(ApiError::Unauthenticated),
        Some(stored) => match checked {
            Some(true) => Ok(stored.to_user()),
            Some(false) => Err(ApiError::Unauthenticated),
            None => Err(ApiError::Internal),
        },
    }
}

/// What a login with good credentials answers, given what signing said.
pub open spec fn grant_verdict(user: UserView, token: Option<Seq<char>>) -> Result<
    LoginResponseView,
    ApiError,
> {
    match token {
        Some(t) => Ok(LoginResponseView { token: t, user }),
        None => Err(ApiError::Internal),
    }
}

/// The view of a login's answer.
pub open spec fn login_view(answer: Result<LoginResponse, ApiError>) -> Result<
    LoginResponseView,
    ApiError,
> {
    match answer {
        Ok(response) => Ok(response@),
        Err(e) => Err(e),
    }
}

/// Completes a login with good credentials from the outcome of signing:
/// the token with the user, or `Internal` where no token could be signed.
pub fn grant(user: User, token: Option<String>) -> (answer: Result<LoginResponse, ApiError>)
    ensures
        login_view(answer) == grant_verdict(user@, hash_view(token)),
{
    match token {
        Some(token) => Ok(LoginResponse { token, user }),
        None => Err(ApiError::Internal),
    }
}

/// What a login on a stored account answers at the instant `now`.
pub open spec fn login_verdict(
    account: UserWithPassword,
    password: Seq<char>,
    key: Seq<u8>,
    now: u64,
) -> Result<LoginResponseView, ApiError> {
    match credentials_verdict(account, bcrypt_verdict(password, account.password@)) {
        Ok(user) => grant_verdict(
            user,
            signed_token(
                account.id,
                account.username@,
                account.email@,
                (now + TOKEN_LIFETIME_SECS) as u64,
                now,
                key,
            ),
        ),
        Err(e) => Err(e),
    }
}

/// The claims of the token that a login of `account` at `now` yields.
pub open spec fn claims_for(account: UserWithPassword, now: u64) -> ClaimsView {
    claims_at(account.id, account.username@, account.email@, now)
}

/// What a login on a stored account may answer when the instant is read
/// from the clock.
///
/// Where the password does not match, or cannot be compared, the answer is
/// the refusal that the credentials call for and nothing else: a wrong
/// password is `Unauthenticated`, exactly as an unknown email is. Where the
/// password matches, the answer is the login of some instant, with a token
/// that reads back as the claims of the account at that instant, or
/// `Internal` where the clock or the signature failed.
pub open spec fn login_answer(
    account: UserWithPassword,
    password: Seq<char>,
    key: Seq<u8>,
    answer: Result<LoginResponse, ApiError>,
) -> bool {
    match credentials_verdict(account, bcrypt_verdict(password, account.password@)) {
        Err(e) => answer == Err::<LoginResponse, ApiError>(e),
        Ok(_) => {
            ||| answer == Err::<LoginResponse, ApiError>(ApiError::Internal)
            ||| exists|now: u64| #[trigger] logged_in_at(account, password, key, now, answer)
        },
    }
}

/// `answer` is the successful login of `account` at the instant `now`.
pub open spec fn logged_in_at(
    account: UserWithPassword,
    password: Seq<char>,
    key: Seq<u8>,
    now: u64,
    answer: Result<LoginResponse, ApiError>,
) -> bool {
    &&& now + TOKEN_LIFETIME_SECS <= u64::MAX
    &&& answer is Ok
    &&& login_view(answer) == login_verdict(account, password, key, now)
    &&& issued_as(answer->Ok_0.token@, claims_for(account, now), key)
}

/// Logs a user in at the instant `now`, from the stored users that might
/// be meant.
///
/// No stored user with the email is `Unauthenticated`. Otherwise the first
/// of them decides: a wrong password is `Unauthenticated`, a failing check
/// or signature `Internal`, and a matching password yields a token for that
/// user's id, name and email together with the user. The token reads back,
/// under the same key, as those claims.
pub fn login_at(users: &Vec<UserWithPassword>, request: &Login, tokens: &TokenService, now: u64) -> (answer:
    Result<LoginResponse, ApiError>)
    requires
        now + TOKEN_LIFETIME_SECS <= u64::MAX,
    ensures
        no_account(users@, request.email@) ==> answer == Err::<LoginResponse, ApiError>(
            ApiError::Unauthenticated,
        ),
        forall|i: int|
            account_at(users@, request.email@, i) ==> login_view(answer) == login_verdict(
                users[i],
                request.password@,
                tokens.key(),
                now,
            ),
        forall|i: int|
            account_at(users@, request.email@, i) && answer is Ok ==> issued_as(
                answer->Ok_0.token@,
                claims_for(users[i], now),
                tokens.key(),
            ),
{
    let found = find_account(users, request.email.as_str());
    let stored = match found {
        Some(i) => {
            proof {
                account_unique(users@, request.email@, i as int);
            }
            &users[i]
        },
        None => {
            return Err(ApiError::Unauthenticated);
        },
    };
    let checked = check_password(request.password.as_str(), stored.password.as_str());
    let user = match check_credentials(Some(stored), checked) {
        Ok(user) => user,
        Err(e) => {
            return Err(e);
        },
    };
    let token = match tokens.issue_at(stored.id, stored.username.clone(), stored.email.clone(), now) {
        Ok(token) => Some(token),
        Err(_) => None,
    };
    let answer = grant(user, token);
    proof {
        if answer is Ok {
            assert(issued_as(answer->Ok_0.token@, claims_for(*stored, now), tokens.key()));
        }
    }
    answer
}

/// Logs a user in at the instant that the system clock shows.
///
/// No stored user with the email is `Unauthenticated`, and so is a wrong
/// password for the first of them; a comparison that fails is `Internal`.
/// With the right password the answer is as [`login_at`] gives it for some
/// instant, or `Internal` where the clock shows none that leaves room for a
/// token's lifetime.
pub fn login(users: &Vec<UserWithPassword>, request: &Login, tokens: &TokenService) -> (answer:
    Result<LoginResponse, ApiError>)
    ensures
        no_account(users@, request.email@) ==> answer == Err::<LoginResponse, ApiError>(
            ApiError::Unauthenticated,
        ),
        forall|i: int|
            account_at(users@, request.email@, i) ==> login_answer(
                users[i],
                request.password@,
                tokens.key(),
                answer,
            ),
{
    let found = find_account(users, request.email.as_str());
    let stored = match found {
        Some(i) => {
            proof {
                account_unique(users@, request.email@, i as int);
            }
            &users[i]
        },
        None => {
            return Err(ApiError::Unauthenticated);
        },
    };
    let checked = check_password(request.password.as_str(), stored.password.as_str());
    let user = match check_credentials(Some(stored), checked) {
        Ok(user) => user,
        Err(e) => {
            return Err(e);
        },
    };
    match tokens.issue(stored.id, stored.username.clone(), stored.email.clone()) {
        Ok(token) => {
            let ghost text = token@;
            let answer = grant(user, Some(token));
            proof {
                let now = choose|now: u64|
                    now + TOKEN_LIFETIME_SECS <= u64::MAX && #[trigger] issued_as(
                        text,
                        claims_at(stored.id, stored.username@, stored.email@, now),
                        tokens.key(),
                    );
                assert(login_verdict(*stored, request.password@, tokens.key(), now) == Ok::<
                    LoginResponseView,
                    ApiError,
                >(LoginResponseView { token: text, user: user@ }));
                assert(logged_in_at(*stored, request.password@, tokens.key(), now, answer));
            }
            answer
        },
        Err(_) => Err(ApiError::Internal),
    }
}

/// The first stored user with an email is one user.
pub proof fn account_unique(users: Seq<UserWithPassword>, email: Seq<char>, i: int)
    requires
        account_at(users, email, i),
    ensures
        forall|j: int| account_at(users, email, j) ==> j == i,
        !no_account(users, email),
{
    assert forall|j: int| account_at(users, email, j) implies j == i by {
        if j < i {
            assert(users[j].email@ != email);
        }
        if i < j {
            assert(users[i].email@ != email);
        }
    }
    assert(users[i].email@ == email);
}

/// A registration that was accepted can be followed by a login.
///
/// Once the row of an accepted registration stands in the store behind the
/// users it was checked against, under whatever id, a login with its email
/// finds that row and no other. With the password of the registration, which
/// the hash in the row confirms, the login at `now` answers with the token
/// that was issued and with the registered user. And the token service
/// accepts that token from then on for one lifetime, with the id, the name
/// and the email of the registered user in its claims.
pub proof fn registered_user_can_log_in(
    users: Seq<UserWithPassword>,
    account: UserWithPassword,
    password: Seq<char>,
    key: Seq<u8>,
    now: u64,
    token: Seq<char>,
    later: u64,
)
    requires
        !taken(users, account.username@, account.email@),
        bcrypt_verdict(password, account.password@) == Some(true),
        now + TOKEN_LIFETIME_SECS <= u64::MAX,
        issued_as(token, claims_for(account, now), key),
    ensures
        account_at(users.push(account), account.email@, users.len() as int),
        login_verdict(account, password, key, now) == Ok::<LoginResponseView, ApiError>(
            LoginResponseView { token, user: account.public() },
        ),
        account.public().id == account.id,
        later < now + TOKEN_LIFETIME_SECS ==> verdict(decoded_token(token, key), later) == Ok::<
            ClaimsView,
            AuthError,
        >(claims_for(account, now)),
        claims_for(account, now).user_id == account.id,
{
    let all = users.push(account);
    assert forall|j: int| 0 <= j < users.len() implies (#[trigger] all[j]).email@
        != account.email@ by {
        assert(all[j] == users[j]);
        assert(!collides(users[j], account.username@, account.email@));
    }
    issued_token_lasts_a_lifetime(
        token,
        account.id,
        account.username@,
        account.email@,
        key,
        now,
        later,
    );
}

/// A wrong password and an unknown email are answered alike: whichever of
/// the two it is, a login that the clock serves answers `Unauthenticated`.
pub proof fn refusals_do_not_tell(
    account: UserWithPassword,
    password: Seq<char>,
    key: Seq<u8>,
    answer: Result<LoginResponse, ApiError>,
)
    requires
        bcrypt_verdict(password, account.password@) == Some(false),
        login_answer(account, password, key, answer),
    ensures
        answer == Err::<LoginResponse, ApiError>(ApiError::Unauthenticated),
{
}

} // verus!
