pub mod claims;
pub mod error;
pub mod guard;
pub mod token;
