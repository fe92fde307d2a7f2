//! The provider's answer to an episode query.
use vstd::prelude::*;

verus! {

#[derive(Debug, PartialEq, Eq)]
pub struct EpisodeInfo {
    pub notes: String,
}

/// One source of an episode. `priority` is the bit pattern of the binary32
/// priority that the provider sent (`f32::to_bits`); see
/// `crate::provider::priority`.
#[derive(Clone, Debug, PartialEq, Eq)]
pub struct Source {
    pub source_url: String,
    pub priority: u32,
    pub source_name: String,
}

#[derive(Debug, PartialEq, Eq)]
pub struct Episode {
    pub episode_string: String,
    pub source_urls: Vec<Source>,
    pub episode_info: EpisodeInfo,
}

#[derive(Debug, PartialEq, Eq)]
pub struct Data {
    pub episode: Option<Episode>,
}

#[derive(Debug, PartialEq, Eq)]
pub struct EpisodeResponse {
    pub data: Data,
}

} // verus!
