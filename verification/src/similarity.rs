//! Distance-to-similarity conversion. Scores are fixed-point numbers scaled
//! by `SIM_SCALE`: a similarity of `SIM_SCALE` means identical vectors, and
//! distances are clamped so a similarity is never negative.

use vstd::prelude::*;

verus! {

/// One unit of similarity or distance equals `1 / SIM_SCALE`.
pub const SIM_SCALE: u64 = 1000000;

/// `max(0, 1 - distance)`, in fixed point: the similarity assigned to a
/// result the server returned at `distance`.
pub open spec fn spec_similarity(distance: int) -> int {
    if distance >= SIM_SCALE {
        0
    } else {
        SIM_SCALE - distance
    }
}

/// Converts a distance reported by the server into a similarity score,
/// clamped to never go below zero when the distance exceeds one.
pub fn similarity_from_distance(distance: u64) -> (r: u64)
    ensures
        r as int == spec_similarity(distance as int),
        r <= SIM_SCALE,
{
    if distance >= SIM_SCALE {
        0
    } else {
        SIM_SCALE - distance
    }
}

} // verus!
