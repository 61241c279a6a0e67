//! The signed-claims payload: `{sub, exp, acs}` and its lossless
//! encoding to and from an ordered string-keyed map.
//!
//! Decoding requires and parses `sub`, `exp` and `acs`, in that order,
//! failing fast on the first missing or unparsable key, and only then
//! checks `exp` against the clock, reporting how many seconds overdue an
//! expired token is.
use vstd::prelude::*;
use vstd::string::StringExecFns;
use crate::auth::error::{AuthError, AuthErrorKind};
use crate::models::role::{parse_role_spec, role_name, Role};
use crate::models::user::User;
use crate::text::{
    dec_int_rep, dec_rep, i32_to_string, parse_i32, parse_i32_spec, parse_u64, parse_u64_spec,
    str_eq, u64_to_string,
};

verus! {

/// The identity a bearer token carries: subject id, expiry as unix
/// seconds, and the granted role.
#[derive(Debug, Clone, Copy, PartialEq, Eq, Structural)]
pub struct Claims {
    pub sub: i32,
    pub exp: u64,
    pub acs: Role,
}

pub open spec fn sub_key() -> Seq<char> {
    seq!['s', 'u', 'b']
}

pub open spec fn exp_key() -> Seq<char> {
    seq!['e', 'x', 'p']
}

pub open spec fn acs_key() -> Seq<char> {
    seq!['a', 'c', 's']
}

/// The text reported when a user without an id asks for a token.
pub open spec fn user_id_field() -> Seq<char> {
    seq!['U', 's', 'e', 'r', ' ', 'i', 'd']
}

/// The mathematical shadow of an encoded claims map.
pub open spec fn entries_view(v: Seq<(String, String)>) -> Seq<(Seq<char>, Seq<char>)> {
    Seq::new(v.len(), |i: int| (v[i].0@, v[i].1@))
}

/// The canonical encoding of a claims value: the three entries in key
/// order, each value in its decimal or role-name rendering.
pub open spec fn claims_entries(c: Claims) -> Seq<(Seq<char>, Seq<char>)> {
    seq![
        (acs_key(), role_name(c.acs)),
        (exp_key(), dec_rep(c.exp as nat)),
        (sub_key(), dec_int_rep(c.sub as int)),
    ]
}

/// First entry with the given key, if any.
pub open spec fn lookup(entries: Seq<(Seq<char>, Seq<char>)>, key: Seq<char>) -> Option<
    Seq<char>,
>
    decreases entries.len(),
{
    if entries.len() == 0 {
        None
    } else if entries[0].0 == key {
        Some(entries[0].1)
    } else {
        lookup(entries.drop_first(), key)
    }
}

/// Seconds a token is overdue at `now`, saturated at what the error
/// field can carry.
pub open spec fn overdue_secs(now: u64, exp: u64) -> int {
    if now - exp > i64::MAX {
        i64::MAX as int
    } else {
        now - exp
    }
}

/// The whole decode pipeline on an already-verified claims map: require
/// and parse `sub`, `exp`, `acs` in that order, then check expiry.
pub open spec fn spec_decode(entries: Seq<(Seq<char>, Seq<char>)>, now: u64) -> Result<
    Claims,
    AuthErrorKind,
> {
    match lookup(entries, sub_key()) {
        None => Err(AuthErrorKind::MissingClaim(sub_key())),
        Some(sub_text) => match parse_i32_spec(sub_text) {
            None => Err(AuthErrorKind::InvalidFormat(sub_key())),
            Some(sub) => match lookup(entries, exp_key()) {
                None => Err(AuthErrorKind::MissingClaim(exp_key())),
                Some(exp_text) => match parse_u64_spec(exp_text) {
                    None => Err(AuthErrorKind::InvalidFormat(exp_key())),
                    Some(exp) => match lookup(entries, acs_key()) {
                        None => Err(AuthErrorKind::MissingClaim(acs_key())),
                        Some(acs_text) => match parse_role_spec(acs_text) {
                            None => Err(AuthErrorKind::InvalidFormat(acs_key())),
                            Some(acs) => if exp < now {
                                Err(AuthErrorKind::TokenExpiredS(overdue_secs(now, exp)))
                            } else {
                                Ok(Claims { sub, exp, acs })
                            },
                        },
                    },
                },
            },
        },
    }
}

/// The value under a required claim key, or `MissingClaim` naming it.
pub fn get_claim_value(claims: &Vec<(String, String)>, claim: &str) -> (r: Result<
    String,
    AuthError,
>)
    ensures
        match lookup(entries_view(claims@), claim@) {
            Some(v) => r matches Ok(s) && s@ == v,
            None => r matches Err(e) && e@ == AuthErrorKind::MissingClaim(claim@),
        },
{
    let ghost whole = entries_view(claims@);
    proof {
        assert(whole.skip(0) =~= whole);
    }
    let n = claims.len();
    let mut i: usize = 0;
    while i < n
        invariant
            i <= n,
            n == claims@.len(),
            whole == entries_view(claims@),
            lookup(whole, claim@) == lookup(whole.skip(i as int), claim@),
        decreases n - i,
    {
        proof {
            assert(whole.skip(i as int)[0] == (claims@[i as int].0@, claims@[i as int].1@));
        }
        if str_eq(claims[i].0.as_str(), claim) {
            return Ok(claims[i].1.clone());
        }
        proof {
            assert(whole.skip(i as int).drop_first() =~= whole.skip(i + 1));
        }
        i = i + 1;
    }
    proof {
        assert(whole.skip(n as int) =~= Seq::<(Seq<char>, Seq<char>)>::empty());
    }
    Err(AuthError::MissingClaim(claim.to_owned()))
}

impl Claims {
    /// The ordered claims map this value signs as: `acs`, `exp`, `sub`.
    pub fn to_map(&self) -> (r: Vec<(String, String)>)
        ensures
            entries_view(r@) == claims_entries(*self),
    {
        let mut v: Vec<(String, String)> = Vec::new();
        v.push(("acs".to_owned(), self.acs.name()));
        v.push(("exp".to_owned(), u64_to_string(self.exp)));
        v.push(("sub".to_owned(), i32_to_string(self.sub)));
        proof {
            reveal_strlit("acs");
            reveal_strlit("exp");
            reveal_strlit("sub");
            assert("acs"@ =~= acs_key());
            assert("exp"@ =~= exp_key());
            assert("sub"@ =~= sub_key());
            assert(entries_view(v@) =~= claims_entries(*self));
        }
        v
    }

    /// Decodes a verified claims map at the given time.
    pub fn from_map(entries: &Vec<(String, String)>, now: u64) -> (r: Result<Claims, AuthError>)
        ensures
            match spec_decode(entries_view(entries@), now) {
                Ok(c) => r matches Ok(x) && x == c,
                Err(k) => r matches Err(e) && e@ == k,
            },
    {
        proof {
            reveal_strlit("acs");
            reveal_strlit("exp");
            reveal_strlit("sub");
            assert("acs"@ =~= acs_key());
            assert("exp"@ =~= exp_key());
            assert("sub"@ =~= sub_key());
        }
        let sub_text = match get_claim_value(entries, "sub") {
            Ok(s) => s,
            Err(e) => {
                return Err(e);
            },
        };
        let sub = match parse_i32(sub_text.as_str()) {
            Some(v) => v,
            None => {
                return Err(AuthError::InvalidFormat("sub".to_owned()));
            },
        };
        let exp_text = match get_claim_value(entries, "exp") {
            Ok(s) => s,
            Err(e) => {
                return Err(e);
            },
        };
        let exp = match parse_u64(exp_text.as_str()) {
            Some(v) => v,
            None => {
                return Err(AuthError::InvalidFormat("exp".to_owned()));
            },
        };
        let acs_text = match get_claim_value(entries, "acs") {
            Ok(s) => s,
            Err(e) => {
                return Err(e);
            },
        };
        let acs = match Role::from_name(acs_text.as_str()) {
            Some(v) => v,
            None => {
                return Err(AuthError::InvalidFormat("acs".to_owned()));
            },
        };
        if exp < now {
            let overdue = now - exp;
            let secs: i64 = if overdue > i64::MAX as u64 {
                i64::MAX
            } else {
                overdue as i64
            };
            return Err(AuthError::TokenExpiredS(secs));
        }
        Ok(Claims { sub, exp, acs })
    }

    /// The claims issued at login: the user's id and role, one hour of
    /// validity from `now`. A user without an id gets no token.
    pub fn new_from_user(user: &User, now: u64) -> (r: Result<Claims, AuthError>)
        requires
            now + 3600 <= u64::MAX,
        ensures
            match user.id {
                Some(id) => r matches Ok(c) && c == (Claims {
                    sub: id,
                    exp: (now + 3600) as u64,
                    acs: user.role,
                }),
                None => r matches Err(e) && e@ == AuthErrorKind::InvalidFormat(user_id_field()),
            },
    {
        match user.id {
            Some(id) => Ok(Claims { sub: id, exp: now + 3600, acs: user.role }),
            None => {
                let text = "User id".to_owned();
                proof {
                    reveal_strlit("User id");
                    assert(text@ =~= user_id_field());
                }
                Err(AuthError::InvalidFormat(text))
            },
        }
    }
}

/// Each required key resolves in the canonical claims map to its own
/// rendering: the map is lossless.
pub proof fn lemma_lookup_claims_entries(c: Claims)
    ensures
        lookup(claims_entries(c), sub_key()) == Some(dec_int_rep(c.sub as int)),
        lookup(claims_entries(c), exp_key()) == Some(dec_rep(c.exp as nat)),
        lookup(claims_entries(c), acs_key()) == Some(role_name(c.acs)),
{
    let entries = claims_entries(c);
    let e1 = entries.drop_first();
    let e2 = e1.drop_first();
    assert(acs_key() != sub_key()) by {
        assert(acs_key()[0] == 'a' && sub_key()[0] == 's');
    };
    assert(exp_key() != sub_key()) by {
        assert(exp_key()[0] == 'e' && sub_key()[0] == 's');
    };
    assert(acs_key() != exp_key()) by {
        assert(acs_key()[0] == 'a' && exp_key()[0] == 'e');
    };
    assert(e1 =~= seq![
        (exp_key(), dec_rep(c.exp as nat)),
        (sub_key(), dec_int_rep(c.sub as int)),
    ]);
    assert(e2 =~= seq![(sub_key(), dec_int_rep(c.sub as int))]);
    assert(lookup(entries, sub_key()) == lookup(e1, sub_key()));
    assert(lookup(e1, sub_key()) == lookup(e2, sub_key()));
    assert(lookup(entries, exp_key()) == lookup(e1, exp_key()));
}

/// Decoding the canonical encoding of any claims value, at any time not
/// past its expiry, returns exactly that value.
pub proof fn lemma_encode_decode_round_trip(c: Claims, now: u64)
    requires
        now <= c.exp,
    ensures
        spec_decode(claims_entries(c), now) == Ok::<Claims, AuthErrorKind>(c),
{
    lemma_lookup_claims_entries(c);
    crate::text::lemma_parse_i32_dec_int_rep(c.sub);
    crate::text::lemma_parse_u64_dec_rep(c.exp);
    crate::models::role::lemma_role_name_round_trip(c.acs);
}

/// Decoding the canonical encoding at any time past its expiry fails
/// with exactly the number of seconds the token is overdue.
pub proof fn lemma_decode_expired(c: Claims, now: u64)
    requires
        now > c.exp,
    ensures
        spec_decode(claims_entries(c), now) == Err::<Claims, AuthErrorKind>(
            AuthErrorKind::TokenExpiredS(overdue_secs(now, c.exp)),
        ),
{
    lemma_lookup_claims_entries(c);
    crate::text::lemma_parse_i32_dec_int_rep(c.sub);
    crate::text::lemma_parse_u64_dec_rep(c.exp);
    crate::models::role::lemma_role_name_round_trip(c.acs);
}

/// A map missing a required key fails with `MissingClaim` naming that
/// key — `sub` first, then `exp`, then `acs`, before any expiry check.
pub proof fn lemma_decode_missing_claim(entries: Seq<(Seq<char>, Seq<char>)>, now: u64)
    ensures
        lookup(entries, sub_key()) is None ==> spec_decode(entries, now) == Err::<
            Claims,
            AuthErrorKind,
        >(AuthErrorKind::MissingClaim(sub_key())),
        (lookup(entries, sub_key()) is Some && parse_i32_spec(lookup(entries, sub_key())->0)
            is Some && lookup(entries, exp_key()) is None) ==> spec_decode(entries, now) == Err::<
            Claims,
            AuthErrorKind,
        >(AuthErrorKind::MissingClaim(exp_key())),
        (lookup(entries, sub_key()) is Some && parse_i32_spec(lookup(entries, sub_key())->0)
            is Some && lookup(entries, exp_key()) is Some && parse_u64_spec(
            lookup(entries, exp_key())->0,
        ) is Some && lookup(entries, acs_key()) is None) ==> spec_decode(entries, now) == Err::<
            Claims,
            AuthErrorKind,
        >(AuthErrorKind::MissingClaim(acs_key())),
{
}

/// An identity that has additionally been checked to carry the admin
/// role; only the guard layer can mint one.
#[derive(Debug, Clone, Copy, PartialEq, Eq, Structural)]
pub struct AdminClaims(Claims);

impl AdminClaims {
    pub closed spec fn spec_claims(&self) -> Claims {
        self.0
    }

    /// Only the guard layer mints admin identities, after the role check.
    pub(crate) fn from_claims(c: Claims) -> (r: AdminClaims)
        ensures
            r.spec_claims() == c,
    {
        AdminClaims(c)
    }

    pub fn claims(&self) -> (r: Claims)
        ensures
            r == self.spec_claims(),
    {
        self.0
    }
}

} // verus!
