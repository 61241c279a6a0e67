//! Signing a claims map into an opaque bearer token and verifying a
//! bearer token back into a claims map, with the process-wide symmetric
//! key. The token format is a JWT over HMAC-SHA-256; this module states
//! only what the jwt crate's own round trip gives.
use vstd::prelude::*;
use crate::auth::claims::{
    claims_entries, entries_view, spec_decode, user_id_field, Claims,
};
use crate::auth::error::{AuthError, AuthErrorKind};
use crate::models::user::User;
use crate::text::lex_lt;
use crate::Secrets;

verus! {

/// Keys of a claims map in strictly ascending order — the shape in
/// which an ordered map hands its entries out.
pub open spec fn entries_sorted(entries: Seq<(Seq<char>, Seq<char>)>) -> bool {
    forall|i: int|
        0 <= i < entries.len() - 1 ==> lex_lt(#[trigger] entries[i].0, entries[i + 1].0)
}

/// What jwt's `sign_with_key` returns for a key and a claims map; a
/// function of the two alone.
pub uninterp spec fn token_of(key: Seq<char>, entries: Seq<(Seq<char>, Seq<char>)>) -> Seq<char>;

/// What jwt's `verify_with_key` returns for a key and a token: the
/// payload entries in key order when the signature verifies, nothing
/// otherwise.
pub uninterp spec fn verified_payload(key: Seq<char>, token: Seq<char>) -> Option<
    Seq<(Seq<char>, Seq<char>)>,
>;

/// Relies on jwt's `SignWithKey` for `BTreeMap<String, String>` under an
/// `Hmac<Sha256>` key: the token is a function of key and map, and
/// verifying a fresh token with the same key returns the same map —
/// provided the entries carry strictly ascending keys, so that
/// collecting them into the ordered map loses nothing. Signing this
/// claims type cannot fail: HMAC accepts every key length, and the JSON
/// serialization of a string-keyed string map always succeeds, so the
/// result is always `Ok`.
#[verifier::external_body]
fn jwt_sign(key: &str, entries: Vec<(String, String)>) -> (r: Result<String, String>)
    ensures
        r is Ok,
        r matches Ok(t) ==> t@ == token_of(key@, entries_view(entries@)) && (entries_sorted(
            entries_view(entries@),
        ) ==> verified_payload(key@, t@) == Some(entries_view(entries@))),
{
    let mac: hmac::Hmac<sha2::Sha256> =
        match hmac::digest::KeyInit::new_from_slice(key.as_bytes()) {
            Ok(m) => m,
            Err(e) => return Err(e.to_string()),
        };
    let map: std::collections::BTreeMap<String, String> = entries.into_iter().collect();
    match jwt::SignWithKey::sign_with_key(map, &mac) {
        Ok(t) => Ok(t),
        Err(e) => Err(e.to_string()),
    }
}

/// Relies on jwt's `VerifyWithKey` for `BTreeMap<String, String>` under
/// an `Hmac<Sha256>` key: it returns the payload exactly when signature
/// and token shape verify, and the returned map is a function of key and
/// token. (Key construction accepts any length, so its error arm is
/// unreachable.)
#[verifier::external_body]
fn jwt_verify(key: &str, token: &str) -> (r: Result<Vec<(String, String)>, String>)
    ensures
        match r {
            Ok(entries) => verified_payload(key@, token@) == Some(entries_view(entries@)),
            Err(_) => verified_payload(key@, token@) is None,
        },
{
    let mac: hmac::Hmac<sha2::Sha256> =
        match hmac::digest::KeyInit::new_from_slice(key.as_bytes()) {
            Ok(m) => m,
            Err(e) => return Err(e.to_string()),
        };
    let map: std::collections::BTreeMap<String, String> =
        match jwt::VerifyWithKey::verify_with_key(token, &mac) {
            Ok(m) => m,
            Err(e) => return Err(e.to_string()),
        };
    Ok(map.into_iter().collect())
}

/// Relies on chrono's `Utc::now` for the wall clock; nothing can be
/// promised of its value.
#[verifier::external_body]
fn now_timestamp() -> (r: i64) {
    chrono::Utc::now().timestamp()
}

/// Unix seconds now, clamped below at zero, so that adding a token
/// lifetime can never leave the type.
pub fn now_unix() -> (n: u64)
    ensures
        n <= i64::MAX as u64,
{
    let t = now_timestamp();
    if t < 0 {
        0
    } else {
        t as u64
    }
}

/// The canonical claims map carries its keys in strictly ascending
/// order: `acs` < `exp` < `sub`.
pub proof fn lemma_claims_entries_sorted(c: Claims)
    ensures
        entries_sorted(claims_entries(c)),
{
    let entries = claims_entries(c);
    assert(lex_lt(entries[0].0, entries[1].0));
    assert(lex_lt(entries[1].0, entries[2].0));
    assert forall|i: int| 0 <= i < entries.len() - 1 implies lex_lt(
        #[trigger] entries[i].0,
        entries[i + 1].0,
    ) by {
        assert(i == 0 || i == 1);
    };
}

/// The claims a user is issued at time `now`.
pub open spec fn issued_claims(user: User, now: u64) -> Claims {
    Claims { sub: user.id->0, exp: (now + 3600) as u64, acs: user.role }
}

/// How a signing outcome relates to its inputs: a token is owed exactly
/// when the user has an id, it is the signature of the user's claims at
/// `now` and verifies back to them; a user without an id is the one
/// refusal.
pub open spec fn issue_outcome_matches(
    r: Result<String, AuthError>,
    key: Seq<char>,
    user: User,
    now: u64,
) -> bool {
    &&& (r is Ok <==> user.id is Some)
    &&& (r matches Ok(t) ==> {
        &&& t@ == token_of(key, claims_entries(issued_claims(user, now)))
        &&& verified_payload(key, t@) == Some(claims_entries(issued_claims(user, now)))
    })
    &&& (r matches Err(e) ==> e@ == AuthErrorKind::InvalidFormat(user_id_field()))
}

/// Signs the claims issued to `user` as of the given time.
pub fn create_token_at(secrets: &Secrets, user: &User, now: u64) -> (r: Result<String, AuthError>)
    requires
        now + 3600 <= u64::MAX,
    ensures
        issue_outcome_matches(r, secrets.api_secret@, *user, now),
{
    let claims = match Claims::new_from_user(user, now) {
        Ok(c) => c,
        Err(e) => {
            return Err(e);
        },
    };
    let entries = claims.to_map();
    proof {
        lemma_claims_entries_sorted(claims);
    }
    match jwt_sign(secrets.api_secret.as_str(), entries) {
        Ok(t) => Ok(t),
        Err(m) => Err(AuthError::JwtError(m)),
    }
}

/// Signs the claims issued to `user` as of the clock's present reading.
pub fn create_token(secrets: &Secrets, user: &User) -> (r: Result<String, AuthError>)
    ensures
        exists|now: u64| #[trigger] issue_outcome_matches(r, secrets.api_secret@, *user, now),
{
    let now = now_unix();
    let r = create_token_at(secrets, user, now);
    proof {
        assert(issue_outcome_matches(r, secrets.api_secret@, *user, now));
    }
    r
}

/// How a decoding outcome relates to its inputs: the decode pipeline's
/// verdict on the verified payload, or a verification failure.
pub open spec fn decode_outcome_matches(
    r: Result<Claims, AuthError>,
    key: Seq<char>,
    token: Seq<char>,
    now: u64,
) -> bool {
    match verified_payload(key, token) {
        Some(entries) => match spec_decode(entries, now) {
            Ok(c) => r matches Ok(x) && x == c,
            Err(k) => r matches Err(e) && e@ == k,
        },
        None => r matches Err(e) && e@ is JwtError,
    }
}

/// A token that was issued for a user decodes, at any time up to its
/// expiry, to exactly the issued claims: the user's id and role with
/// one hour of validity. The first two premises are what issuing
/// promises of its token; the third is what decoding promises of its
/// result.
pub proof fn lemma_issue_then_decode(
    key: Seq<char>,
    user: User,
    now: u64,
    t: u64,
    token: Seq<char>,
    r: Result<Claims, AuthError>,
)
    requires
        now + 3600 <= u64::MAX,
        token == token_of(key, claims_entries(issued_claims(user, now))),
        verified_payload(key, token) == Some(claims_entries(issued_claims(user, now))),
        decode_outcome_matches(r, key, token, t),
        t <= now + 3600,
    ensures
        r matches Ok(c) && c == issued_claims(user, now),
{
    crate::auth::claims::lemma_encode_decode_round_trip(issued_claims(user, now), t);
}

/// The same token decoded after its expiry fails with exactly the
/// number of seconds it is overdue.
pub proof fn lemma_issue_then_decode_expired(
    key: Seq<char>,
    user: User,
    now: u64,
    t: u64,
    token: Seq<char>,
    r: Result<Claims, AuthError>,
)
    requires
        now + 3600 <= u64::MAX,
        token == token_of(key, claims_entries(issued_claims(user, now))),
        verified_payload(key, token) == Some(claims_entries(issued_claims(user, now))),
        decode_outcome_matches(r, key, token, t),
        t > now + 3600,
    ensures
        r matches Err(e) && e@ == crate::auth::error::AuthErrorKind::TokenExpiredS(
            crate::auth::claims::overdue_secs(t, (now + 3600) as u64),
        ),
{
    crate::auth::claims::lemma_decode_expired(issued_claims(user, now), t);
}

/// Verifies the token's signature, then decodes and expiry-checks the
/// claims map as of the given time.
pub fn validate_token_at(secrets: &Secrets, token: &str, now: u64) -> (r: Result<
    Claims,
    AuthError,
>)
    ensures
        decode_outcome_matches(r, secrets.api_secret@, token@, now),
{
    let entries = match jwt_verify(secrets.api_secret.as_str(), token) {
        Ok(v) => v,
        Err(m) => {
            return Err(AuthError::JwtError(m));
        },
    };
    Claims::from_map(&entries, now)
}

/// Verifies and decodes a token as of the clock's present reading.
pub fn validate_token(secrets: &Secrets, token: &str) -> (r: Result<Claims, AuthError>)
    ensures
        exists|now: u64| #[trigger] decode_outcome_matches(r, secrets.api_secret@, token@, now),
{
    let now = now_unix();
    let r = validate_token_at(secrets, token, now);
    proof {
        assert(decode_outcome_matches(r, secrets.api_secret@, token@, now));
    }
    r
}

} // verus!
