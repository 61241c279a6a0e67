//! Failures of token decoding, each kind distinguishable from the rest.
use vstd::prelude::*;
use vstd::string::StringExecFns;
use crate::text::{dec_int_rep, i64_to_string};

verus! {

/// Why decoding a bearer token failed.
///
/// `MissingClaim` and `InvalidFormat` carry the claim's key;
/// `TokenExpiredS` carries the number of seconds the token is overdue;
/// `JwtError` carries the message of a signature or format failure
/// reported while verifying the raw token.
#[derive(Debug, Clone, PartialEq)]
pub enum AuthError {
    MissingClaim(String),
    InvalidFormat(String),
    TokenExpiredS(i64),
    JwtError(String),
}

/// The mathematical shadow of [`AuthError`]: the same kinds over
/// sequences and unbounded integers, for use in contracts.
pub enum AuthErrorKind {
    MissingClaim(Seq<char>),
    InvalidFormat(Seq<char>),
    TokenExpiredS(int),
    JwtError(Seq<char>),
}

impl View for AuthError {
    type V = AuthErrorKind;

    open spec fn view(&self) -> AuthErrorKind {
        match self {
            AuthError::MissingClaim(k) => AuthErrorKind::MissingClaim(k@),
            AuthError::InvalidFormat(k) => AuthErrorKind::InvalidFormat(k@),
            AuthError::TokenExpiredS(s) => AuthErrorKind::TokenExpiredS(*s as int),
            AuthError::JwtError(m) => AuthErrorKind::JwtError(m@),
        }
    }
}

/// The human-readable line each kind is reported as.
pub open spec fn auth_error_message(k: AuthErrorKind) -> Seq<char> {
    match k {
        AuthErrorKind::MissingClaim(c) => seq!['C', 'l', 'a', 'i', 'm', ' '] + c + seq![
            ' ', 'i', 's', ' ', 'm', 'i', 's', 's', 'i', 'n', 'g',
        ],
        AuthErrorKind::InvalidFormat(c) => seq!['C', 'l', 'a', 'i', 'm', ' '] + c + seq![
            ' ', 'h', 'a', 's', ' ', 'i', 'n', 'v', 'a', 'l', 'i', 'd', ' ', 'f', 'o', 'r', 'm',
            'a', 't',
        ],
        AuthErrorKind::TokenExpiredS(s) => seq![
            'T', 'o', 'k', 'e', 'n', ' ', 'i', 's', ' ', 'e', 'x', 'p', 'i', 'r', 'e', 'd', ' ',
            'b', 'y', ' ',
        ] + dec_int_rep(s) + seq![' ', 's', 'e', 'c', 'o', 'n', 'd', 's'],
        AuthErrorKind::JwtError(m) => m,
    }
}

impl AuthError {
    /// Renders the error as its report line.
    pub fn message(&self) -> (r: String)
        ensures
            r@ == auth_error_message(self@),
    {
        proof {
            reveal_strlit("Claim ");
            reveal_strlit(" is missing");
            reveal_strlit(" has invalid format");
            reveal_strlit("Token is expired by ");
            reveal_strlit(" seconds");
        }
        match self {
            AuthError::MissingClaim(c) => {
                let r = "Claim ".to_owned().concat(c.as_str()).concat(" is missing");
                proof {
                    assert(r@ =~= auth_error_message(self@));
                }
                r
            },
            AuthError::InvalidFormat(c) => {
                let r = "Claim ".to_owned().concat(c.as_str()).concat(" has invalid format");
                proof {
                    assert(r@ =~= auth_error_message(self@));
                }
                r
            },
            AuthError::TokenExpiredS(s) => {
                let r = "Token is expired by ".to_owned().concat(
                    i64_to_string(*s).as_str(),
                ).concat(" seconds");
                proof {
                    assert(r@ =~= auth_error_message(self@));
                }
                r
            },
            AuthError::JwtError(m) => m.clone(),
        }
    }
}

} // verus!
