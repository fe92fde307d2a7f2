pub mod priority;
pub mod responses;
pub mod scraper;
