//! Request-time identity derivation: read the `Authorization` header,
//! require the `Bearer` scheme, verify and decode the token, and for
//! the admin guard additionally require the admin role. Every failure
//! collapses to the same unauthenticated outcome.
use vstd::prelude::*;
use vstd::string::StrSliceExecFns;
use crate::auth::claims::{spec_decode, AdminClaims, Claims};
use crate::auth::token::{now_unix, validate_token_at, verified_payload};
use crate::models::role::Role;
use crate::text::str_eq;
use crate::Secrets;

verus! {

pub open spec fn bearer_prefix() -> Seq<char> {
    seq!['B', 'e', 'a', 'r', 'e', 'r', ' ']
}

pub open spec fn header_view(h: Option<&str>) -> Option<Seq<char>> {
    match h {
        Some(s) => Some(s@),
        None => None,
    }
}

/// The identity an `Authorization` header yields at time `now`: the
/// header must be present, carry the `Bearer` scheme, and hold a token
/// that verifies and decodes to unexpired claims.
pub open spec fn spec_authorize(key: Seq<char>, header: Option<Seq<char>>, now: u64) -> Option<
    Claims,
> {
    match header {
        None => None,
        Some(h) => if h.len() < 7 || h.take(7) != bearer_prefix() {
            None
        } else {
            match verified_payload(key, h.skip(7)) {
                Some(entries) => match spec_decode(entries, now) {
                    Ok(c) => Some(c),
                    Err(_) => None,
                },
                None => None,
            }
        },
    }
}

/// The stricter guard: the same derivation, then the admin role.
pub open spec fn spec_authorize_admin(
    key: Seq<char>,
    header: Option<Seq<char>>,
    now: u64,
) -> Option<Claims> {
    match spec_authorize(key, header, now) {
        Some(c) => if c.acs == Role::Admin {
            Some(c)
        } else {
            None
        },
        None => None,
    }
}

/// Derives the request identity as of the given time.
pub fn authorize_at(secrets: &Secrets, authorization: Option<&str>, now: u64) -> (r: Option<
    Claims,
>)
    ensures
        r == spec_authorize(secrets.api_secret@, header_view(authorization), now),
{
    let h = match authorization {
        Some(h) => h,
        None => {
            return None;
        },
    };
    let len = h.unicode_len();
    if len < 7 {
        return None;
    }
    proof {
        reveal_strlit("Bearer ");
        assert("Bearer "@ =~= bearer_prefix());
        assert(h@.subrange(0, 7) =~= h@.take(7));
    }
    let prefix = h.substring_char(0, 7);
    if !str_eq(prefix, "Bearer ") {
        return None;
    }
    let token = h.substring_char(7, len);
    proof {
        assert(h@.subrange(7, len as int) =~= h@.skip(7));
    }
    match validate_token_at(secrets, token, now) {
        Ok(c) => Some(c),
        Err(_) => None,
    }
}

/// Derives the admin identity as of the given time.
pub fn authorize_admin_at(secrets: &Secrets, authorization: Option<&str>, now: u64) -> (r: Option<
    AdminClaims,
>)
    ensures
        match spec_authorize_admin(secrets.api_secret@, header_view(authorization), now) {
            Some(c) => r matches Some(a) && a.spec_claims() == c,
            None => r is None,
        },
{
    let claims = match authorize_at(secrets, authorization, now) {
        Some(c) => c,
        None => {
            return None;
        },
    };
    if claims.acs == Role::Admin {
        Some(AdminClaims::from_claims(claims))
    } else {
        None
    }
}

/// How a clock-reading authorization relates to its inputs.
pub open spec fn authorize_outcome_matches(
    r: Option<Claims>,
    key: Seq<char>,
    header: Option<Seq<char>>,
    now: u64,
) -> bool {
    r == spec_authorize(key, header, now)
}

/// Derives the request identity as of the clock's present reading.
pub fn authorize(secrets: &Secrets, authorization: Option<&str>) -> (r: Option<Claims>)
    ensures
        exists|now: u64| #[trigger] authorize_outcome_matches(
            r,
            secrets.api_secret@,
            header_view(authorization),
            now,
        ),
{
    let now = now_unix();
    let r = authorize_at(secrets, authorization, now);
    proof {
        assert(authorize_outcome_matches(
            r,
            secrets.api_secret@,
            header_view(authorization),
            now,
        ));
    }
    r
}

/// How a clock-reading admin authorization relates to its inputs.
pub open spec fn authorize_admin_outcome_matches(
    r: Option<AdminClaims>,
    key: Seq<char>,
    header: Option<Seq<char>>,
    now: u64,
) -> bool {
    match spec_authorize_admin(key, header, now) {
        Some(c) => r matches Some(a) && a.spec_claims() == c,
        None => r is None,
    }
}

/// Derives the admin identity as of the clock's present reading.
pub fn authorize_admin(secrets: &Secrets, authorization: Option<&str>) -> (r: Option<AdminClaims>)
    ensures
        exists|now: u64| #[trigger] authorize_admin_outcome_matches(
            r,
            secrets.api_secret@,
            header_view(authorization),
            now,
        ),
{
    let now = now_unix();
    let r = authorize_admin_at(secrets, authorization, now);
    proof {
        assert(authorize_admin_outcome_matches(
            r,
            secrets.api_secret@,
            header_view(authorization),
            now,
        ));
    }
    r
}

} // verus!
