//! Frames along the curve: where each ring sits and how it is turned.
//!
//! The curve itself is sampled by the caller, at evenly spaced parameters
//! from its start to its end. A frame keeps the sampled position and turns
//! the cross-section's axis onto the direction of the sampled velocity by
//! the shortest arc. Each frame depends on its own sample only: nothing is
//! carried from one frame to the next to even out twist.

use crate::error::ExtrudeError;
use crate::vector::{arc_rotation, rotation_arc, try_unit, unit_of};
use bevy::math::{Quat, Vec3};
use vstd::prelude::*;

verus! {

/// What the curve gives at one parameter: where it is and how it moves.
#[derive(Clone, Copy, Debug)]
pub struct CurveSample {
    pub position: Vec3,
    pub velocity: Vec3,
}

/// The placement of one ring: its origin and the rotation of its vertices.
#[derive(Clone, Copy, Debug)]
pub struct Frame {
    pub position: Vec3,
    pub rotation: Quat,
}

/// The sample's velocity has a direction.
pub open spec fn has_tangent(sample: CurveSample) -> bool {
    unit_of(sample.velocity) is Some
}

/// Every sample's velocity has a direction.
pub open spec fn all_have_tangents(samples: Seq<CurveSample>) -> bool {
    forall|r: int| 0 <= r < samples.len() ==> has_tangent(#[trigger] samples[r])
}

/// The frame at a sample whose velocity has a direction.
pub open spec fn frame_of(sample: CurveSample, axis: Vec3) -> Frame {
    Frame {
        position: sample.position,
        rotation: arc_rotation(axis, unit_of(sample.velocity).unwrap()),
    }
}

/// One frame for each sample, in the order of the samples.
pub open spec fn frames_of(samples: Seq<CurveSample>, axis: Vec3) -> Seq<Frame> {
    Seq::new(samples.len(), |r: int| frame_of(samples[r], axis))
}

/// The number of equal steps into which a curve is cut to get `ring_count`
/// samples, both ends included. Fewer than two rings are refused.
pub fn subdivisions(ring_count: usize) -> (result: Result<usize, ExtrudeError>)
    ensures
        ring_count >= 2 ==> result == Ok::<usize, ExtrudeError>((ring_count - 1) as usize),
        ring_count < 2 ==> result == Err::<usize, ExtrudeError>(ExtrudeError::InvalidRingCount),
{
    if ring_count < 2 {
        Err(ExtrudeError::InvalidRingCount)
    } else {
        Ok(ring_count - 1)
    }
}

impl Frame {
    /// The frame at `position` for a velocity that was normalised to
    /// `tangent`: the axis is turned onto the tangent. Where the velocity
    /// had no direction, there is no frame.
    pub fn toward(position: Vec3, tangent: Option<Vec3>, axis: &Vec3) -> (result: Result<
        Frame,
        ExtrudeError,
    >)
        ensures
            match tangent {
                Some(direction) => result == Ok::<Frame, ExtrudeError>(
                    (Frame { position: position, rotation: arc_rotation(*axis, direction) }),
                ),
                None => result == Err::<Frame, ExtrudeError>(ExtrudeError::DegenerateTangent),
            },
    {
        match tangent {
            Some(direction) => Ok(Frame { position, rotation: rotation_arc(axis, &direction) }),
            None => Err(ExtrudeError::DegenerateTangent),
        }
    }

    /// The frame at one sample of the curve, or a refusal where the sample's
    /// velocity cannot be normalised.
    pub fn at(sample: &CurveSample, axis: &Vec3) -> (result: Result<Frame, ExtrudeError>)
        ensures
            has_tangent(*sample) ==> result == Ok::<Frame, ExtrudeError>(frame_of(*sample, *axis)),
            !has_tangent(*sample) ==> result == Err::<Frame, ExtrudeError>(
                ExtrudeError::DegenerateTangent,
            ),
    {
        let tangent = try_unit(&sample.velocity);
        Self::toward(sample.position, tangent, axis)
    }
}

/// One frame for each sample of the curve, in order.
///
/// At least two samples are needed. A single sample whose velocity has no
/// direction refuses the whole pass.
pub fn sample_frames(samples: &Vec<CurveSample>, axis: &Vec3) -> (result: Result<
    Vec<Frame>,
    ExtrudeError,
>)
    ensures
        match result {
            Ok(frames) => {
                &&& samples.len() >= 2
                &&& all_have_tangents(samples@)
                &&& frames@ == frames_of(samples@, *axis)
            },
            Err(e) => {
                if samples.len() < 2 {
                    e == ExtrudeError::InvalidRingCount
                } else {
                    e == ExtrudeError::DegenerateTangent && !all_have_tangents(samples@)
                }
            },
        },
{
    if samples.len() < 2 {
        return Err(ExtrudeError::InvalidRingCount);
    }
    let mut frames: Vec<Frame> = Vec::new();
    let mut ring: usize = 0;
    while ring < samples.len()
        invariant
            2 <= samples.len(),
            ring <= samples.len(),
            frames@.len() == ring,
            forall|r: int| 0 <= r < ring ==> has_tangent(#[trigger] samples@[r]),
            forall|r: int| 0 <= r < ring ==> #[trigger] frames@[r] == frame_of(samples@[r], *axis),
        decreases samples.len() - ring,
    {
        match Frame::at(&samples[ring], axis) {
            Ok(frame) => {
                frames.push(frame);
            },
            Err(e) => {
                assert(!has_tangent(samples@[ring as int]));
                return Err(e);
            },
        }
        ring = ring + 1;
    }
    assert(frames@ =~= frames_of(samples@, *axis));
    Ok(frames)
}

} // verus!
