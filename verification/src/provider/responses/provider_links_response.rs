//! The links that a streaming source offers.
use vstd::prelude::*;

verus! {

/// One link. `priority`, where present, is the bit pattern of the binary32
/// priority that the source sent (`f32::to_bits`).
#[derive(Debug, PartialEq, Eq)]
pub struct Link {
    pub link: String,
    pub priority: Option<u32>,
}

#[derive(Debug, PartialEq, Eq)]
pub struct ProviderLinksResponse {
    pub links: Vec<Link>,
}

} // verus!
