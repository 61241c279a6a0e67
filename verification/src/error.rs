//! The service's error kinds. Every kind stays distinguishable here;
//! collapsing them into transport responses is the caller's business.
use vstd::prelude::*;
use crate::auth::error::AuthError;
use crate::models::password::PasswordRequirements;

verus! {

#[derive(Debug, Clone, PartialEq)]
pub enum Error {
    AuthError(AuthError),
    DatabaseError(String),
    DatabaseConnectionError(String),
    UserNameTaken(String),
    UserNotFound(String),
    InvalidCredentials,
    UserNotConfirmed(String),
    ValidationError(ValidationError),
}

#[derive(Debug, Clone, PartialEq)]
pub enum ValidationError {
    Username(UsernameValidationError),
    Password(PasswordRequirements),
    Query(QueryValidationError),
    ResourceData(ResourceDataValidationError),
}

#[derive(Debug, Clone, PartialEq)]
pub enum UsernameValidationError {
    InvalidLength(i32, i32),
    InvalidCharacters(Vec<char>),
}

#[derive(Debug, Clone, PartialEq)]
pub enum QueryValidationError {
    InvalidColumn(String),
    InvalidPageRangeFormat,
    InvalidSortOrder,
    InvalidItemCount,
}

#[derive(Debug, Clone, PartialEq)]
pub enum ResourceDataValidationError {
    KeyMismatch(String, String),
    KeyMissing,
    ValueMissing,
}

} // verus!
