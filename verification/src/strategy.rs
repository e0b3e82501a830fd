//! Strategy selection: a closed decision over the three handling paths,
//! keyed by the lower-cased requested output format.

use vstd::prelude::*;
use crate::text::str_eq;

verus! {

/// The three mutually exclusive handling paths of a conversion request.
#[derive(Clone, Copy, Debug, PartialEq, Eq, Structural)]
pub enum Strategy {
    /// Pass the input through the engine unchanged except for the format.
    PassThrough,
    /// Engine conversion with the output's longer side capped at 256,
    /// aspect ratio preserved, never upscaled.
    SizeConstrained,
    /// Wrap the source raster bytes, unmodified, in a vector-container
    /// document; the engine is never called on this path.
    VectorEmbed,
}

/// The strategy for a lower-cased format token: "svg" embeds, "ico" is
/// size-constrained, every other format passes through the engine.
pub open spec fn classify(format_lower: Seq<char>) -> Strategy {
    if format_lower == "svg"@ {
        Strategy::VectorEmbed
    } else if format_lower == "ico"@ {
        Strategy::SizeConstrained
    } else {
        Strategy::PassThrough
    }
}

/// Classifies a lower-cased format token.
pub fn classify_format(format_lower: &str) -> (r: Strategy)
    ensures
        r == classify(format_lower@),
{
    if str_eq(format_lower, "svg") {
        Strategy::VectorEmbed
    } else if str_eq(format_lower, "ico") {
        Strategy::SizeConstrained
    } else {
        Strategy::PassThrough
    }
}

} // verus!
