//! The profile that is swept along the curve.

use crate::error::ExtrudeError;
use bevy::math::Vec3;
use vstd::prelude::*;

verus! {

/// What a cross-section is in contracts: its vertices in order, the normal
/// of each, and the axis of its local frame that follows the curve.
pub struct CrossSectionModel {
    pub positions: Seq<Vec3>,
    pub normals: Seq<Vec3>,
    pub axis: Vec3,
}

impl CrossSectionModel {
    /// The number of vertices in one ring.
    pub open spec fn stride(self) -> int {
        self.positions.len() as int
    }

    /// Every vertex has its normal, and there are at least two vertices.
    pub open spec fn valid(self) -> bool {
        &&& self.positions.len() == self.normals.len()
        &&& self.positions.len() >= 2
    }
}

/// An ordered ring of points in the profile's own frame, each with a normal,
/// and the axis of that frame which is turned onto the curve's tangent.
///
/// A cross-section is fixed once made: it always holds as many normals as
/// positions, and at least two of each.
#[derive(Debug)]
pub struct CrossSection {
    positions: Vec<Vec3>,
    normals: Vec<Vec3>,
    axis: Vec3,
}

impl View for CrossSection {
    type V = CrossSectionModel;

    closed spec fn view(&self) -> CrossSectionModel {
        CrossSectionModel { positions: self.positions@, normals: self.normals@, axis: self.axis }
    }
}

impl CrossSection {
    #[verifier::type_invariant]
    spec fn well_formed(self) -> bool {
        self@.valid()
    }

    /// Which error, if any, stands against a cross-section of these lists.
    pub open spec fn refusal(positions: Seq<Vec3>, normals: Seq<Vec3>) -> Option<ExtrudeError> {
        if positions.len() != normals.len() {
            Some(ExtrudeError::MissingAttribute)
        } else if positions.len() < 2 {
            Some(ExtrudeError::DegenerateCrossSection)
        } else {
            None
        }
    }

    /// A cross-section of the given vertices and normals, with `axis` as the
    /// direction that is to follow the curve.
    ///
    /// Lists of different lengths are refused as a missing attribute, fewer
    /// than two vertices as a degenerate cross-section.
    pub fn new(positions: Vec<Vec3>, normals: Vec<Vec3>, axis: Vec3) -> (result: Result<
        CrossSection,
        ExtrudeError,
    >)
        ensures
            match result {
                Ok(section) => {
                    &&& Self::refusal(positions@, normals@) is None
                    &&& section@ == (CrossSectionModel {
                        positions: positions@,
                        normals: normals@,
                        axis: axis,
                    })
                    &&& section@.valid()
                },
                Err(e) => Self::refusal(positions@, normals@) == Some(e),
            },
    {
        if positions.len() != normals.len() {
            return Err(ExtrudeError::MissingAttribute);
        }
        if positions.len() < 2 {
            return Err(ExtrudeError::DegenerateCrossSection);
        }
        Ok(CrossSection { positions, normals, axis })
    }

    /// A cross-section of the attributes read from a mesh, either of which
    /// may be absent.
    ///
    /// An absent list is refused as a missing attribute; lists that are
    /// there are judged as by [`CrossSection::new`].
    pub fn from_attributes(
        positions: Option<Vec<Vec3>>,
        normals: Option<Vec<Vec3>>,
        axis: Vec3,
    ) -> (result: Result<CrossSection, ExtrudeError>)
        ensures
            match (positions, normals) {
                (Some(p), Some(n)) => match result {
                    Ok(section) => {
                        &&& Self::refusal(p@, n@) is None
                        &&& section@ == (CrossSectionModel {
                            positions: p@,
                            normals: n@,
                            axis: axis,
                        })
                        &&& section@.valid()
                    },
                    Err(e) => Self::refusal(p@, n@) == Some(e),
                },
                _ => result is Err && result->Err_0 == ExtrudeError::MissingAttribute,
            },
    {
        match (positions, normals) {
            (Some(p), Some(n)) => Self::new(p, n, axis),
            _ => Err(ExtrudeError::MissingAttribute),
        }
    }

    /// The number of vertices in one ring.
    pub fn stride(&self) -> (stride: usize)
        ensures
            stride == self@.stride(),
            self@.valid(),
    {
        proof {
            use_type_invariant(self);
        }
        self.positions.len()
    }

    /// The vertices, in order.
    pub fn positions(&self) -> (positions: &Vec<Vec3>)
        ensures
            positions@ == self@.positions,
            self@.valid(),
    {
        proof {
            use_type_invariant(self);
        }
        &self.positions
    }

    /// The normal of each vertex, in the order of the vertices.
    pub fn normals(&self) -> (normals: &Vec<Vec3>)
        ensures
            normals@ == self@.normals,
            self@.valid(),
    {
        proof {
            use_type_invariant(self);
        }
        &self.normals
    }

    /// The axis of the local frame that is turned onto the curve's tangent.
    pub fn axis(&self) -> (axis: Vec3)
        ensures
            axis == self@.axis,
    {
        self.axis
    }
}

} // verus!
