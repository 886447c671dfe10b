//! Why a generation pass is refused.

use vstd::prelude::*;

verus! {

/// The reasons for which no mesh is built. A pass either yields the whole
/// mesh or one of these; nothing is built in part.
#[derive(Clone, Copy, Debug, PartialEq, Eq, Structural)]
pub enum ExtrudeError {
    /// Fewer than two rings were asked for.
    InvalidRingCount,
    /// The cross-section source has no positions or no normals, or the two
    /// lists do not pair up.
    MissingAttribute,
    /// The cross-section has fewer than two vertices.
    DegenerateCrossSection,
    /// The curve's velocity at a sample cannot be normalised.
    DegenerateTangent,
    /// The mesh would have more vertices than a `u32` index can address.
    TooManyVertices,
}

} // verus!
