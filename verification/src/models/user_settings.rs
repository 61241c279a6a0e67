//! Tunable account-policy settings as the storage layer hands them over;
//! every field is optional and absent fields leave the defaults in force.
use vstd::prelude::*;

verus! {

#[derive(Debug, Clone, Default, PartialEq)]
pub struct UserSettings {
    pub lock: Option<String>,
    pub name_min_length: Option<i32>,
    pub name_max_length: Option<i32>,
    pub name_special_characters: Option<String>,
    pub password_min_length: Option<i32>,
    pub password_needed_checks: Option<i32>,
    pub password_check_numbers: Option<bool>,
    pub password_check_uppercase: Option<bool>,
    pub password_check_lowercase: Option<bool>,
    pub password_check_special_characters: Option<bool>,
}

} // verus!
