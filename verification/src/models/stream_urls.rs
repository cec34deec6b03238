use vstd::prelude::*;

verus! {

/// The four bitrate-differentiated variants of one media asset.
///
/// Either all four fields hold distinct quality URLs derived from a single
/// decrypted base URL, or all four hold the same placeholder URL when
/// decryption failed; the normalizer never mixes real and missing tiers.
#[derive(Debug, Clone)]
pub struct StreamUrls {
    pub very_high_quality: Option<String>,
    pub high_quality: Option<String>,
    pub medium_quality: Option<String>,
    pub low_quality: Option<String>,
}

impl StreamUrls {
    pub fn new(
        vhq: Option<String>,
        hq: Option<String>,
        mq: Option<String>,
        lq: Option<String>,
    ) -> (r: StreamUrls)
        ensures
            r.very_high_quality == vhq,
            r.high_quality == hq,
            r.medium_quality == mq,
            r.low_quality == lq,
    {
        StreamUrls { very_high_quality: vhq, high_quality: hq, medium_quality: mq, low_quality: lq }
    }
}

} // verus!
