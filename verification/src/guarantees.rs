//! What holds of every generated tube, proved from the definitions that the
//! contracts of this crate use.

use crate::cross_section::CrossSectionModel;
use crate::error::ExtrudeError;
use crate::frame::{all_have_tangents, frames_of, has_tangent, CurveSample, Frame};
use crate::mesh::{placed, ring_normals, ring_positions, turned, MeshModel, OutputMesh};
use crate::plugin::generated;
use crate::stitch::{flat_index, lemma_flat_index_bound, lemma_flat_index_split};
use bevy::math::Vec3;
use vstd::prelude::*;

verus! {

/// A tube has as many positions, and as many normals, as it has rings times
/// the vertices of its cross-section.
pub proof fn vertex_count(section: CrossSectionModel, samples: Seq<CurveSample>, mesh: MeshModel)
    requires
        section.valid(),
        generated(section, samples) == Ok::<MeshModel, ExtrudeError>(mesh),
    ensures
        mesh.positions.len() == samples.len() * section.stride(),
        mesh.normals.len() == samples.len() * section.stride(),
{
    assert(samples.len() * section.stride() >= 0) by (nonlinear_arith)
        requires
            samples.len() >= 0,
            section.stride() >= 0,
    ;
}

/// Vertex `local` of ring `ring` is vertex `local` of the cross-section,
/// turned and moved by frame `ring`; its normal is turned by the same frame.
pub proof fn vertex_of_ring(
    frames: Seq<Frame>,
    section: CrossSectionModel,
    ring: int,
    local: int,
)
    requires
        section.valid(),
        0 <= ring < frames.len(),
        0 <= local < section.stride(),
    ensures
        0 <= flat_index(section.stride(), ring, local) < frames.len() * section.stride(),
        ring_positions(frames, section)[flat_index(section.stride(), ring, local)] == placed(
            frames[ring],
            section.positions[local],
        ),
        ring_normals(frames, section)[flat_index(section.stride(), ring, local)] == turned(
            frames[ring],
            section.normals[local],
        ),
{
    lemma_flat_index_bound(frames.len() as int, section.stride(), ring, local);
    lemma_flat_index_split(section.stride(), ring, local);
}

/// Where the curve moves in one direction throughout, every ring is turned
/// alike: samples of equal velocity give frames of equal rotation.
pub proof fn equal_velocities_equal_rotations(samples: Seq<CurveSample>, axis: Vec3, r: int, q: int)
    requires
        0 <= r < samples.len(),
        0 <= q < samples.len(),
        samples[r].velocity == samples[q].velocity,
    ensures
        frames_of(samples, axis)[r].rotation == frames_of(samples, axis)[q].rotation,
{
}

/// Each frame sits where the curve was sampled.
pub proof fn frames_keep_positions(samples: Seq<CurveSample>, axis: Vec3, r: int)
    requires
        0 <= r < samples.len(),
    ensures
        frames_of(samples, axis).len() == samples.len(),
        frames_of(samples, axis)[r].position == samples[r].position,
{
}

/// A single sample whose velocity has no direction refuses the whole pass:
/// no mesh comes of it.
pub proof fn degenerate_tangent_refused(
    section: CrossSectionModel,
    samples: Seq<CurveSample>,
    r: int,
)
    requires
        samples.len() >= 2,
        0 <= r < samples.len(),
        !has_tangent(samples[r]),
    ensures
        generated(section, samples) == Err::<MeshModel, ExtrudeError>(
            ExtrudeError::DegenerateTangent,
        ),
{
    assert(!all_have_tangents(samples));
}

/// Two passes over the same cross-section and the same samples fill their
/// buffers alike, entry for entry.
pub proof fn same_inputs_same_buffers(
    section: CrossSectionModel,
    samples: Seq<CurveSample>,
    first: OutputMesh,
    second: OutputMesh,
)
    requires
        generated(section, samples) == Ok::<MeshModel, ExtrudeError>(first@),
        generated(section, samples) == Ok::<MeshModel, ExtrudeError>(second@),
    ensures
        first.positions@ == second.positions@,
        first.normals@ == second.normals@,
        first.indices@ == second.indices@,
{
    assert(first@.indices.len() == first.indices@.len());
    assert(second@.indices.len() == second.indices@.len());
    assert forall|k: int| 0 <= k < first.indices@.len() implies first.indices@[k]
        == second.indices@[k] by {
        assert(first@.indices[k] == first.indices@[k] as int);
        assert(second@.indices[k] == second.indices@[k] as int);
    }
    assert(first.indices@ =~= second.indices@);
}

} // verus!
