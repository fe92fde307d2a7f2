pub mod api;
pub mod list;
pub mod refusal;
pub mod shows;
