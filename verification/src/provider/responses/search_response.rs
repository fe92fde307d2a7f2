//! The provider's answer to a show search.
use vstd::prelude::*;

verus! {

/// How many episodes a show has subtitled, dubbed and raw.
#[derive(Clone, Copy, Debug, PartialEq, Eq)]
pub struct AvailableEpisodes {
    pub sub: u32,
    pub dub: u32,
    pub raw: u32,
}

/// One show found by a search.
#[derive(Debug, PartialEq, Eq)]
pub struct Show {
    pub id: String,
    pub name: String,
    pub english_name: Option<String>,
    pub available_episodes: AvailableEpisodes,
    pub image_url: String,
}

/// The shows of a search, in the provider's order.
#[derive(Debug, PartialEq, Eq)]
pub struct Edges {
    pub edges: Vec<Show>,
}

#[derive(Debug, PartialEq, Eq)]
pub struct Shows {
    pub shows: Edges,
}

#[derive(Debug, PartialEq, Eq)]
pub struct SearchResponse {
    pub data: Shows,
}

} // verus!
