//! The login request payload: a name and a plaintext password.
use vstd::prelude::*;

verus! {

#[derive(Debug, Clone)]
pub struct Credentials {
    pub name: String,
    pub password: String,
}

} // verus!
