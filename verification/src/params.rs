//! From a coarse quality knob to the encoder's configuration.

use vstd::prelude::*;

verus! {

/// Speed against size in the compressor.
#[derive(Clone, Copy, Debug, PartialEq, Eq, Structural)]
pub enum CompressionTier {
    /// Fastest, least compression.
    Fast,
    /// The middle ground.
    Balanced,
    /// Slowest, smallest output.
    Best,
}

/// The per-row transform applied before compression.
#[derive(Clone, Copy, Debug, PartialEq, Eq, Structural)]
pub enum FilterStrategy {
    /// Rows are compressed as they are.
    Unfiltered,
    /// The filter is searched anew for each row.
    Adaptive,
}

/// The configuration of one encode call.
#[derive(Clone, Copy, Debug, PartialEq, Eq, Structural)]
pub struct EncodeParameters {
    pub tier: CompressionTier,
    pub filter: FilterStrategy,
}

/// The tier of each level: 0 to 3 are fast, 4 to 6 balanced, 7 to 9 best.
/// Every level outside 0 to 9 is fast.
pub open spec fn tier_of(level: int) -> CompressionTier {
    if 4 <= level <= 6 {
        CompressionTier::Balanced
    } else if 7 <= level <= 9 {
        CompressionTier::Best
    } else {
        CompressionTier::Fast
    }
}

/// The strategy that a flag asks for.
pub open spec fn strategy_of(adaptive: bool) -> FilterStrategy {
    if adaptive {
        FilterStrategy::Adaptive
    } else {
        FilterStrategy::Unfiltered
    }
}

/// The configuration that a level and an optional flag stand for. Without a
/// flag the rows stay unfiltered.
pub open spec fn parameters_of(level: int, adaptive: Option<bool>) -> EncodeParameters {
    EncodeParameters {
        tier: tier_of(level),
        filter: match adaptive {
            Some(flag) => strategy_of(flag),
            None => FilterStrategy::Unfiltered,
        },
    }
}

/// Maps a compression level to its tier. Total: a level above 9 is treated
/// as fast rather than rejected.
pub fn map_compression_tier(level: u8) -> (tier: CompressionTier)
    ensures
        tier == tier_of(level as int),
        level <= 3 ==> tier == CompressionTier::Fast,
        4 <= level <= 6 ==> tier == CompressionTier::Balanced,
        7 <= level <= 9 ==> tier == CompressionTier::Best,
        level > 9 ==> tier == CompressionTier::Fast,
{
    match level {
        0..=3 => CompressionTier::Fast,
        4..=6 => CompressionTier::Balanced,
        7..=9 => CompressionTier::Best,
        _ => CompressionTier::Fast,
    }
}

/// Maps the adaptive-filtering flag to a filter strategy.
pub fn map_filter_strategy(adaptive: bool) -> (filter: FilterStrategy)
    ensures
        filter == strategy_of(adaptive),
        adaptive ==> filter == FilterStrategy::Adaptive,
        !adaptive ==> filter == FilterStrategy::Unfiltered,
{
    if adaptive {
        FilterStrategy::Adaptive
    } else {
        FilterStrategy::Unfiltered
    }
}

impl EncodeParameters {
    /// Derives the configuration from a compression level and, where the
    /// caller supplies one, the adaptive-filtering flag.
    pub fn for_level(level: u8, adaptive: Option<bool>) -> (params: EncodeParameters)
        ensures
            params == parameters_of(level as int, adaptive),
    {
        let filter = match adaptive {
            Some(flag) => map_filter_strategy(flag),
            None => FilterStrategy::Unfiltered,
        };
        EncodeParameters { tier: map_compression_tier(level), filter }
    }
}

} // verus!
