pub mod callback;
pub mod login;
pub mod middleware;
pub mod models;
pub mod oauth_info;
