pub mod episode_response;
pub mod provider_links_response;
pub mod search_response;
