pub mod query_config;
pub mod user_query;
