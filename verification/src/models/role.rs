//! The access role carried by an account and by every issued token.
use vstd::prelude::*;
use crate::text::str_eq;

verus! {

#[derive(Debug, Clone, Copy, PartialEq, Eq, Structural)]
pub enum Role {
    User,
    Admin,
}

/// The canonical name of a role, as written into the `acs` claim.
pub open spec fn role_name(r: Role) -> Seq<char> {
    match r {
        Role::User => seq!['U', 's', 'e', 'r'],
        Role::Admin => seq!['A', 'd', 'm', 'i', 'n'],
    }
}

/// Exactly the two canonical names parse back; anything else is refused.
pub open spec fn parse_role_spec(s: Seq<char>) -> Option<Role> {
    if s == role_name(Role::User) {
        Some(Role::User)
    } else if s == role_name(Role::Admin) {
        Some(Role::Admin)
    } else {
        None
    }
}

/// A role's name is never mistaken for the other's.
pub proof fn lemma_role_name_round_trip(r: Role)
    ensures
        parse_role_spec(role_name(r)) == Some(r),
{
    assert(role_name(Role::User).len() != role_name(Role::Admin).len());
}

impl Role {
    pub fn name(&self) -> (r: String)
        ensures
            r@ == role_name(*self),
    {
        match self {
            Role::User => {
                let s = "User".to_owned();
                proof {
                    reveal_strlit("User");
                    assert(s@ =~= role_name(Role::User));
                }
                s
            },
            Role::Admin => {
                let s = "Admin".to_owned();
                proof {
                    reveal_strlit("Admin");
                    assert(s@ =~= role_name(Role::Admin));
                }
                s
            },
        }
    }

    pub fn from_name(s: &str) -> (r: Option<Role>)
        ensures
            r == parse_role_spec(s@),
    {
        proof {
            reveal_strlit("User");
            reveal_strlit("Admin");
            assert("User"@ =~= role_name(Role::User));
            assert("Admin"@ =~= role_name(Role::Admin));
        }
        if str_eq(s, "User") {
            Some(Role::User)
        } else if str_eq(s, "Admin") {
            Some(Role::Admin)
        } else {
            None
        }
    }
}

impl Role {
    /// The integer the storage layer persists a role as.
    pub fn as_i32(&self) -> (r: i32)
        ensures
            r == role_index(*self),
    {
        match self {
            Role::User => 0,
            Role::Admin => 1,
        }
    }

    /// Reads a persisted role back; any other integer is refused.
    pub fn from_i32(v: i32) -> (r: Option<Role>)
        ensures
            r == parse_role_index(v as int),
    {
        if v == 0 {
            Some(Role::User)
        } else if v == 1 {
            Some(Role::Admin)
        } else {
            None
        }
    }
}

pub open spec fn role_index(r: Role) -> int {
    match r {
        Role::User => 0,
        Role::Admin => 1,
    }
}

pub open spec fn parse_role_index(v: int) -> Option<Role> {
    if v == 0 {
        Some(Role::User)
    } else if v == 1 {
        Some(Role::Admin)
    } else {
        None
    }
}

/// A persisted role always reads back as itself.
pub proof fn lemma_role_index_round_trip(r: Role)
    ensures
        parse_role_index(role_index(r)) == Some(r),
{
}

impl Default for Role {
    fn default() -> (r: Self)
        ensures
            r == Role::User,
    {
        Role::User
    }
}

} // verus!
