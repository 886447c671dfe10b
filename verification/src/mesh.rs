//! The tube itself: one ring of vertices for each frame, and the triangles
//! between neighbouring rings.

use crate::cross_section::{CrossSection, CrossSectionModel};
use crate::error::ExtrudeError;
use crate::frame::Frame;
use crate::stitch::{flat_index, lemma_flat_index_bound, lemma_flat_index_split, stitch_rings, stitched};
use crate::vector::{rotate, rotated, translate, translated};
use bevy::math::Vec3;
use vstd::prelude::*;

verus! {

/// What a mesh is in contracts: the position and the normal of each vertex,
/// and the vertex indices of its triangles, three for each.
pub struct MeshModel {
    pub positions: Seq<Vec3>,
    pub normals: Seq<Vec3>,
    pub indices: Seq<int>,
}

/// The buffers of a generated tube, ready to be handed to a mesh container.
/// Each pass builds them anew.
#[derive(Debug)]
pub struct OutputMesh {
    pub positions: Vec<Vec3>,
    pub normals: Vec<Vec3>,
    pub indices: Vec<u32>,
}

impl View for OutputMesh {
    type V = MeshModel;

    open spec fn view(&self) -> MeshModel {
        MeshModel {
            positions: self.positions@,
            normals: self.normals@,
            indices: self.indices@.map_values(|i: u32| i as int),
        }
    }
}

/// Where a vertex of the cross-section lies once its ring is at `frame`:
/// turned by the frame's rotation, then moved to the frame's position.
pub open spec fn placed(frame: Frame, local: Vec3) -> Vec3 {
    translated(frame.position, rotated(frame.rotation, local))
}

/// The normal of a vertex once its ring is at `frame`: turned with the ring,
/// neither moved nor rescaled.
pub open spec fn turned(frame: Frame, normal: Vec3) -> Vec3 {
    rotated(frame.rotation, normal)
}

/// The positions of all rings: vertex `k` is vertex `k % stride` of the
/// cross-section, placed by frame `k / stride`.
pub open spec fn ring_positions(frames: Seq<Frame>, section: CrossSectionModel) -> Seq<Vec3> {
    Seq::new(
        (frames.len() * section.stride()) as nat,
        |k: int| placed(frames[k / section.stride()], section.positions[k % section.stride()]),
    )
}

/// The normals of all rings, laid out as the positions are.
pub open spec fn ring_normals(frames: Seq<Frame>, section: CrossSectionModel) -> Seq<Vec3> {
    Seq::new(
        (frames.len() * section.stride()) as nat,
        |k: int| turned(frames[k / section.stride()], section.normals[k % section.stride()]),
    )
}

/// The tube that sweeps `section` through `frames`.
pub open spec fn extruded(frames: Seq<Frame>, section: CrossSectionModel) -> MeshModel {
    MeshModel {
        positions: ring_positions(frames, section),
        normals: ring_normals(frames, section),
        indices: stitched(frames.len() as int, section.stride()),
    }
}

/// Sweeps a cross-section through a sequence of frames.
///
/// Each frame gives one ring. Fewer than two frames are refused, and so is a
/// tube with more vertices than a `u32` index can address.
pub fn extrude(frames: &Vec<Frame>, section: &CrossSection) -> (result: Result<
    OutputMesh,
    ExtrudeError,
>)
    ensures
        match result {
            Ok(mesh) => {
                &&& frames.len() >= 2
                &&& section@.valid()
                &&& frames.len() * section@.stride() <= u32::MAX
                &&& mesh@ == extruded(frames@, section@)
                &&& mesh.positions@.len() == frames.len() * section@.stride()
                &&& mesh.normals@.len() == frames.len() * section@.stride()
                &&& mesh.indices@.len() == (frames.len() - 1) * section@.stride() * 2 * 3
                &&& forall|k: int|
                    0 <= k < mesh.indices@.len() ==> #[trigger] mesh.indices@[k]
                        < mesh.positions@.len()
            },
            Err(e) => {
                if frames.len() < 2 {
                    e == ExtrudeError::InvalidRingCount
                } else {
                    e == ExtrudeError::TooManyVertices && frames.len() * section@.stride()
                        > u32::MAX
                }
            },
        },
{
    let ring_count = frames.len();
    let stride = section.stride();
    let indices = match stitch_rings(ring_count, stride) {
        Ok(indices) => indices,
        Err(e) => {
            return Err(e);
        },
    };
    let locals = section.positions();
    let local_normals = section.normals();
    let mut positions: Vec<Vec3> = Vec::new();
    let mut normals: Vec<Vec3> = Vec::new();
    let mut ring: usize = 0;
    while ring < ring_count
        invariant
            ring_count == frames.len(),
            stride == section@.stride(),
            section@.valid(),
            locals@ == section@.positions,
            local_normals@ == section@.normals,
            ring <= ring_count,
            positions@.len() == flat_index(stride as int, ring as int, 0),
            normals@.len() == positions@.len(),
            forall|k: int|
                0 <= k < positions@.len() ==> #[trigger] positions@[k] == ring_positions(
                    frames@,
                    section@,
                )[k],
            forall|k: int|
                0 <= k < normals@.len() ==> #[trigger] normals@[k] == ring_normals(
                    frames@,
                    section@,
                )[k],
        decreases ring_count - ring,
    {
        let frame = &frames[ring];
        let mut local: usize = 0;
        while local < stride
            invariant
                ring_count == frames.len(),
                stride == section@.stride(),
                section@.valid(),
                locals@ == section@.positions,
                local_normals@ == section@.normals,
                ring < ring_count,
                *frame == frames@[ring as int],
                local <= stride,
                positions@.len() == flat_index(stride as int, ring as int, local as int),
                normals@.len() == positions@.len(),
                forall|k: int|
                    0 <= k < positions@.len() ==> #[trigger] positions@[k] == ring_positions(
                        frames@,
                        section@,
                    )[k],
                forall|k: int|
                    0 <= k < normals@.len() ==> #[trigger] normals@[k] == ring_normals(
                        frames@,
                        section@,
                    )[k],
            decreases stride - local,
        {
            proof {
                lemma_flat_index_bound(ring_count as int, stride as int, ring as int, local as int);
                lemma_flat_index_split(stride as int, ring as int, local as int);
            }
            let position = translate(&frame.position, &rotate(&frame.rotation, &locals[local]));
            let normal = rotate(&frame.rotation, &local_normals[local]);
            positions.push(position);
            normals.push(normal);
            local = local + 1;
        }
        proof {
            assert(flat_index(stride as int, ring as int, stride as int) == flat_index(
                stride as int,
                ring as int + 1,
                0,
            )) by (nonlinear_arith);
        }
        ring = ring + 1;
    }
    let mesh = OutputMesh { positions, normals, indices };
    proof {
        assert(mesh@.positions =~= ring_positions(frames@, section@));
        assert(mesh@.normals =~= ring_normals(frames@, section@));
    }
    Ok(mesh)
}

} // verus!
