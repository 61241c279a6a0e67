//! The decision core of the login endpoint: check the candidate
//! password against the stored credential, require a confirmed account,
//! and issue a bearer token. Looking the user up and shipping the
//! response stay with the transport layer.
use vstd::prelude::*;
use crate::auth::token::{create_token_at, issue_outcome_matches};
use crate::error::Error;
use crate::models::credentials::Credentials;
use crate::models::password::credential_matches;
use crate::models::user::User;
use crate::Secrets;

verus! {

/// Whether the login candidate matches the account's credential.
pub open spec fn login_password_ok(user: User, credentials: Credentials) -> bool {
    credential_matches(user.password.spec_hash(), user.password.spec_salt(), credentials.password@)
}

/// The login verdict on a fetched account: a wrong password is
/// `InvalidCredentials`, an unconfirmed account is refused by name, and
/// otherwise the outcome is the token issue's own — `Ok` exactly when
/// the account has an id.
pub open spec fn login_outcome_matches(
    r: Result<String, Error>,
    key: Seq<char>,
    user: User,
    credentials: Credentials,
    now: u64,
) -> bool {
    &&& (!login_password_ok(user, credentials) ==> (r matches Err(e) && e
        == Error::InvalidCredentials))
    &&& (login_password_ok(user, credentials) && !user.confirmed ==> (r matches Err(e) && (e
        matches Error::UserNotConfirmed(n) && n@ == credentials.name@)))
    &&& (login_password_ok(user, credentials) && user.confirmed ==> match r {
        Ok(t) => issue_outcome_matches(Ok(t), key, user, now),
        Err(e) => e matches Error::AuthError(a) && issue_outcome_matches(
            Err(a),
            key,
            user,
            now,
        ),
    })
    &&& (login_password_ok(user, credentials) && user.confirmed && user.id is Some ==> r is Ok)
}

/// Decides a login attempt against an already-fetched account, as of
/// the given time.
pub fn login_user(secrets: &Secrets, user: &User, credentials: &Credentials, now: u64) -> (r:
    Result<String, Error>)
    requires
        now + 3600 <= u64::MAX,
    ensures
        login_outcome_matches(r, secrets.api_secret@, *user, *credentials, now),
{
    if !user.password.verify(credentials.password.clone()) {
        return Err(Error::InvalidCredentials);
    }
    if !user.confirmed {
        return Err(Error::UserNotConfirmed(credentials.name.clone()));
    }
    match create_token_at(secrets, user, now) {
        Ok(t) => Ok(t),
        Err(a) => Err(Error::AuthError(a)),
    }
}

/// Decides a login attempt over the lookup's outcome. An account that
/// was not found is refused exactly as a wrong password is — the caller
/// can never tell the two apart.
pub fn login(secrets: &Secrets, user: Option<&User>, credentials: &Credentials, now: u64) -> (r:
    Result<String, Error>)
    requires
        now + 3600 <= u64::MAX,
    ensures
        user is None ==> (r matches Err(e) && e == Error::InvalidCredentials),
        user matches Some(u) ==> login_outcome_matches(
            r,
            secrets.api_secret@,
            *u,
            *credentials,
            now,
        ),
{
    match user {
        Some(u) => login_user(secrets, u, credentials, now),
        None => Err(Error::InvalidCredentials),
    }
}

} // verus!
