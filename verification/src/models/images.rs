use vstd::prelude::*;

verus! {

/// The three artwork sizes of one record, each derived from a single source
/// artwork URL by size-token substitution, never fetched independently.
#[derive(Debug, Clone)]
pub struct Images {
    pub large_artwork: Option<String>,
    pub medium_artwork: Option<String>,
    pub small_artwork: Option<String>,
}

impl Images {
    pub fn new(large: Option<String>, medium: Option<String>, small: Option<String>) -> (r: Images)
        ensures
            r.large_artwork == large,
            r.medium_artwork == medium,
            r.small_artwork == small,
    {
        Images { large_artwork: large, medium_artwork: medium, small_artwork: small }
    }
}

} // verus!
