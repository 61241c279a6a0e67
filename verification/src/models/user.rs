//! The account record, with plain values standing in for the storage
//! layer's timestamps (unix seconds).
use vstd::prelude::*;
use crate::error::Error;
use crate::models::password::{
    credential_matches, password_ok, spec_default_requirements, Password,
};
use crate::models::role::Role;
use crate::error::ValidationError;
use crate::models::user_name::{name_len_ok, name_ok, spec_special_chars, trim_spec, UserName};

verus! {

/// What `str::to_lowercase` returns; the result depends on the
/// characters alone.
pub uninterp spec fn lower_of(s: Seq<char>) -> Seq<char>;

/// Relies on `str::to_lowercase` for Unicode lowercasing of a name.
#[verifier::external_body]
fn to_lowercase(s: &str) -> (r: String)
    ensures
        r@ == lower_of(s@),
{
    s.to_lowercase()
}

#[derive(Debug, Clone)]
pub struct User {
    pub id: Option<i32>,
    pub name: UserName,
    pub normalized_name: String,
    pub password: Password,
    pub role: Role,
    pub confirmed: bool,
    pub created_at: Option<i64>,
    pub deleted_at: Option<i64>,
}

impl User {
    /// A fresh, unconfirmed account: validated name, its lowercase form
    /// for case-insensitive lookup, and a fresh credential. The name is
    /// checked before the password, so a bad name wins the error.
    pub fn new(name: String, password: String, role: Role) -> (r: Result<User, Error>)
        ensures
            r is Ok <==> name_ok(trim_spec(name@)) && password_ok(
                spec_default_requirements(),
                password@,
            ),
            r matches Ok(u) ==> {
                &&& u.id is None
                &&& u.name@ == trim_spec(name@)
                &&& u.normalized_name@ == lower_of(trim_spec(name@))
                &&& credential_matches(u.password.spec_hash(), u.password.spec_salt(), password@)
                &&& u.role == role
                &&& !u.confirmed
                &&& u.created_at is None
                &&& u.deleted_at is None
            },
            r matches Err(e) ==> if !name_len_ok(trim_spec(name@)) {
                e == Error::ValidationError(
                    ValidationError::Username(
                        crate::error::UsernameValidationError::InvalidLength(3, 28),
                    ),
                )
            } else if !name_ok(trim_spec(name@)) {
                e matches Error::ValidationError(
                    ValidationError::Username(
                        crate::error::UsernameValidationError::InvalidCharacters(v),
                    ),
                ) && v@ == spec_special_chars()
            } else {
                e == Error::ValidationError(
                    ValidationError::Password(spec_default_requirements()),
                )
            },
    {
        let name = match UserName::new(name) {
            Ok(n) => n,
            Err(e) => {
                return Err(e);
            },
        };
        let normalized_name = to_lowercase(name.as_str());
        let password = match Password::new(password) {
            Ok(p) => p,
            Err(e) => {
                return Err(e);
            },
        };
        Ok(User {
            id: None,
            name,
            normalized_name,
            password,
            role,
            confirmed: false,
            created_at: None,
            deleted_at: None,
        })
    }
}

} // verus!
