use vstd::prelude::*;

verus! {

/// A research record as the bridge reads it.
///
/// Fractional quantities are held in thousandths (`1.247` is `1247`). A text
/// field is `None` where the caller passed no buffer, else exactly the bytes
/// it declared readable.
#[derive(Clone, Debug)]
pub struct QXRResearchData {
    pub signals: i32,
    pub opportunities: i32,
    pub signal_strength_milli: i64,
    pub price_range_min_milli: i64,
    pub price_range_max_milli: i64,
    pub max_liquidity: i64,
    pub strategy: Option<Vec<u8>>,
    pub timeframe: Option<Vec<u8>>,
}

/// A social media post record. Its engagement score is held in thousandths.
#[derive(Clone, Debug)]
pub struct QXRSocialPost {
    pub platform: Option<Vec<u8>>,
    pub content: Option<Vec<u8>>,
    pub hashtags: Vec<Vec<u8>>,
    pub engagement_score_milli: i64,
}

/// The numeric domain on which a research record can be scored: counts and
/// strength are non-negative, and the liquidity exceeds one, so that its
/// logarithm is positive.
pub open spec fn scorable(d: QXRResearchData) -> bool {
    &&& d.signals >= 0
    &&& d.opportunities >= 0
    &&& d.signal_strength_milli >= 0
    &&& d.max_liquidity > 1
}

impl QXRResearchData {
    /// Whether the record lies in the scoring domain.
    pub fn is_scorable(&self) -> (r: bool)
        ensures
            r == scorable(*self),
    {
        self.signals >= 0 && self.opportunities >= 0 && self.signal_strength_milli >= 0
            && self.max_liquidity > 1
    }
}

} // verus!
