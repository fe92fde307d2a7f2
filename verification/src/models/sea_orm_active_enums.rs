//! Enumerations stored in the database.
use vstd::prelude::*;

verus! {

/// Whether a show entry is the dubbed or the subtitled release; stored as
/// `"dub"` or `"sub"`.
#[derive(Debug, Clone, Copy, PartialEq, Eq, Structural)]
pub enum TranslationType {
    Dub,
    Sub,
}

} // verus!
