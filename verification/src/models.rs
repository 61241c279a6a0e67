pub mod credentials;
pub mod password;
pub mod resource_data;
pub mod role;
pub mod user;
pub mod user_name;
pub mod user_settings;
