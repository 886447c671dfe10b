//! The generation pass: from a cross-section and the samples of a curve to
//! the buffers of a tube.

use crate::cross_section::{CrossSection, CrossSectionModel};
use crate::error::ExtrudeError;
use crate::frame::{all_have_tangents, frames_of, sample_frames, CurveSample};
use crate::mesh::{extrude, extruded, MeshModel, OutputMesh};
use vstd::prelude::*;

verus! {

/// What a pass yields for a cross-section and the samples of a curve: the
/// tube through the frames at the samples, or the first reason against it.
pub open spec fn generated(section: CrossSectionModel, samples: Seq<CurveSample>) -> Result<
    MeshModel,
    ExtrudeError,
> {
    if samples.len() < 2 {
        Err(ExtrudeError::InvalidRingCount)
    } else if !all_have_tangents(samples) {
        Err(ExtrudeError::DegenerateTangent)
    } else if samples.len() * section.stride() > u32::MAX {
        Err(ExtrudeError::TooManyVertices)
    } else {
        Ok(extruded(frames_of(samples, section.axis), section))
    }
}

/// The home of the generation pass.
pub struct BevyPgcSplinesPlugin;

impl BevyPgcSplinesPlugin {
    /// Builds the tube that sweeps `section` along a curve sampled at
    /// `samples`, one ring for each sample.
    ///
    /// The pass keeps no state: it reads its two arguments and returns new
    /// buffers, or an error and nothing else.
    pub fn generate_mesh(section: &CrossSection, samples: &Vec<CurveSample>) -> (result: Result<
        OutputMesh,
        ExtrudeError,
    >)
        ensures
            match result {
                Ok(mesh) => {
                    &&& generated(section@, samples@) == Ok::<MeshModel, ExtrudeError>(mesh@)
                    &&& section@.valid()
                    &&& mesh.positions@.len() == samples.len() * section@.stride()
                    &&& mesh.normals@.len() == samples.len() * section@.stride()
                    &&& mesh.indices@.len() == (samples.len() - 1) * section@.stride() * 2 * 3
                    &&& forall|k: int|
                        0 <= k < mesh.indices@.len() ==> #[trigger] mesh.indices@[k]
                            < mesh.positions@.len()
                },
                Err(e) => generated(section@, samples@) == Err::<MeshModel, ExtrudeError>(e),
            },
    {
        let axis = section.axis();
        let frames = match sample_frames(samples, &axis) {
            Ok(frames) => frames,
            Err(e) => {
                return Err(e);
            },
        };
        extrude(&frames, section)
    }
}

} // verus!
