pub mod blob;
pub mod users;
