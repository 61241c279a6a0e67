//! Core of a small user/account web service: password credentials,
//! signed bearer-token claims, request guards, and a paginated/sorted
//! query planner over an allow-listed set of columns.
use vstd::prelude::*;

pub mod auth;
pub mod controllers;
pub mod error;
pub mod models;
pub mod repositories;
pub mod text;

verus! {

/// Process-wide, read-only configuration handed in at startup.
#[derive(Clone, Debug)]
pub struct Secrets {
    pub api_secret: String,
    pub database_url: String,
}

/// A simple newtype used to thread managed state around without
/// exposing the inner value's type to callers.
pub struct Extension<T>(pub T);

impl<T> Extension<T> {
    pub fn into(self) -> (r: T)
        ensures
            r == self.0,
    {
        self.0
    }
}

} // verus!
