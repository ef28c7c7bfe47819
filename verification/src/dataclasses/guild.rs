use vstd::prelude::*;

verus! {

/// A guild of which only the id is known yet.
#[derive(Clone, Debug, PartialEq, Eq)]
pub struct PartialGuild {
    /// Unavailable as this is partial.
    pub unavailable: bool,
    pub id: String,
}

} // verus!
