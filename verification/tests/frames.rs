use bevy::math::cubic_splines::{CubicBezier, CubicCurve, CubicGenerator};
use bevy::math::{Quat, Vec3};
use bevy_pgc_splines::error::ExtrudeError;
use bevy_pgc_splines::frame::{sample_frames, subdivisions, CurveSample, Frame};

fn close(a: Vec3, b: Vec3) -> bool {
    (a - b).abs().max_element() < 1e-5
}

fn line(from: Vec3, to: Vec3) -> CubicCurve<Vec3> {
    let third = (to - from) / 3.0;
    CubicBezier::new([[from, from + third, to - third, to]]).to_curve()
}

fn samples_of(curve: &CubicCurve<Vec3>, ring_count: usize) -> Vec<CurveSample> {
    let steps = subdivisions(ring_count).unwrap();
    curve
        .iter_positions(steps)
        .zip(curve.iter_velocities(steps))
        .map(|(position, velocity)| CurveSample { position, velocity })
        .collect()
}

#[test]
fn straight_line_turns_every_frame_alike() {
    let curve = line(Vec3::ZERO, Vec3::new(10.0, 0.0, 0.0));
    let frames = sample_frames(&samples_of(&curve, 4), &Vec3::NEG_Z).unwrap();
    assert_eq!(frames.len(), 4);
    let probe = Vec3::new(0.3, -1.7, 2.9);
    let turned = frames[0].rotation * probe;
    for frame in &frames {
        assert!(close(frame.rotation * probe, turned));
    }
}

#[test]
fn straight_line_places_frames_evenly() {
    let curve = line(Vec3::ZERO, Vec3::new(10.0, 0.0, 0.0));
    let frames = sample_frames(&samples_of(&curve, 5), &Vec3::NEG_Z).unwrap();
    let expected = [0.0f32, 2.5, 5.0, 7.5, 10.0];
    assert_eq!(frames.len(), expected.len());
    for (frame, x) in frames.iter().zip(expected) {
        assert!(close(frame.position, Vec3::new(x, 0.0, 0.0)));
    }
}

#[test]
fn frame_turns_the_axis_onto_the_tangent() {
    let curve = CubicBezier::new([[
        Vec3::new(0.0, 0.0, 0.0),
        Vec3::new(2.0, 0.0, 0.0),
        Vec3::new(4.0, 1.0, 0.0),
        Vec3::new(6.0, 1.0, 3.0),
    ]])
    .to_curve();
    let samples = samples_of(&curve, 16);
    let frames = sample_frames(&samples, &Vec3::NEG_Z).unwrap();
    assert_eq!(frames.len(), 16);
    for (frame, sample) in frames.iter().zip(&samples) {
        assert_eq!(frame.position, sample.position);
        assert!(close(frame.rotation * Vec3::NEG_Z, sample.velocity.normalize()));
        assert!(frame.rotation.is_normalized());
        assert!(frame.position.is_finite());
    }
}

#[test]
fn frame_ignores_the_speed_of_the_curve() {
    let slow = CurveSample { position: Vec3::ONE, velocity: Vec3::new(0.0, 0.25, 0.0) };
    let fast = CurveSample { position: Vec3::ONE, velocity: Vec3::new(0.0, 400.0, 0.0) };
    let a = Frame::at(&slow, &Vec3::NEG_Z).unwrap();
    let b = Frame::at(&fast, &Vec3::NEG_Z).unwrap();
    assert_eq!(a.rotation, b.rotation);
    assert_eq!(a.rotation, Quat::from_rotation_arc(Vec3::NEG_Z, Vec3::Y));
    assert!(close(a.rotation * Vec3::NEG_Z, Vec3::Y));
}

#[test]
fn frame_follows_the_given_axis() {
    let sample = CurveSample { position: Vec3::ZERO, velocity: Vec3::new(3.0, 0.0, 0.0) };
    let back = Frame::at(&sample, &Vec3::NEG_Z).unwrap();
    let front = Frame::at(&sample, &Vec3::Z).unwrap();
    assert!(close(back.rotation * Vec3::NEG_Z, Vec3::X));
    assert!(close(front.rotation * Vec3::Z, Vec3::X));
    assert!(close(back.rotation * Vec3::X, Vec3::Z));
    assert!(close(front.rotation * Vec3::X, Vec3::NEG_Z));
}

#[test]
fn frame_toward_a_tangent_keeps_the_position() {
    let position = Vec3::new(1.0, 2.0, 3.0);
    let frame = Frame::toward(position, Some(Vec3::X), &Vec3::NEG_Z).unwrap();
    assert_eq!(frame.position, position);
    assert_eq!(frame.rotation, Quat::from_rotation_arc(Vec3::NEG_Z, Vec3::X));
}

#[test]
fn no_frame_without_a_tangent() {
    let result = Frame::toward(Vec3::ZERO, None, &Vec3::NEG_Z);
    assert_eq!(result.err(), Some(ExtrudeError::DegenerateTangent));
}

#[test]
fn zero_velocity_has_no_frame() {
    let still = CurveSample { position: Vec3::ONE, velocity: Vec3::ZERO };
    assert_eq!(Frame::at(&still, &Vec3::NEG_Z).err(), Some(ExtrudeError::DegenerateTangent));
}

#[test]
fn velocity_too_small_to_measure_has_no_frame() {
    let creeping = CurveSample { position: Vec3::ONE, velocity: Vec3::new(1e-30, 0.0, 0.0) };
    assert_eq!(Frame::at(&creeping, &Vec3::NEG_Z).err(), Some(ExtrudeError::DegenerateTangent));
}

#[test]
fn velocity_that_is_not_finite_has_no_frame() {
    let wild = CurveSample { position: Vec3::ONE, velocity: Vec3::new(f32::NAN, 0.0, 0.0) };
    assert_eq!(Frame::at(&wild, &Vec3::NEG_Z).err(), Some(ExtrudeError::DegenerateTangent));
    let endless = CurveSample { position: Vec3::ONE, velocity: Vec3::new(f32::INFINITY, 0.0, 0.0) };
    assert_eq!(Frame::at(&endless, &Vec3::NEG_Z).err(), Some(ExtrudeError::DegenerateTangent));
}

#[test]
fn one_still_sample_refuses_all_frames() {
    let moving = CurveSample { position: Vec3::ZERO, velocity: Vec3::X };
    let still = CurveSample { position: Vec3::X, velocity: Vec3::ZERO };
    assert_eq!(
        sample_frames(&vec![moving, moving, still, moving], &Vec3::NEG_Z).err(),
        Some(ExtrudeError::DegenerateTangent)
    );
    assert_eq!(
        sample_frames(&vec![still, moving], &Vec3::NEG_Z).err(),
        Some(ExtrudeError::DegenerateTangent)
    );
}

#[test]
fn curve_that_starts_at_rest_is_refused() {
    let start = Vec3::ZERO;
    let curve = CubicBezier::new([[start, start, Vec3::new(2.0, 0.0, 0.0), Vec3::new(4.0, 0.0, 0.0)]])
        .to_curve();
    assert_eq!(
        sample_frames(&samples_of(&curve, 3), &Vec3::NEG_Z).err(),
        Some(ExtrudeError::DegenerateTangent)
    );
}

#[test]
fn fewer_than_two_samples_give_no_frames() {
    let moving = CurveSample { position: Vec3::ZERO, velocity: Vec3::X };
    let still = CurveSample { position: Vec3::ZERO, velocity: Vec3::ZERO };
    assert_eq!(
        sample_frames(&vec![], &Vec3::NEG_Z).err(),
        Some(ExtrudeError::InvalidRingCount)
    );
    assert_eq!(
        sample_frames(&vec![moving], &Vec3::NEG_Z).err(),
        Some(ExtrudeError::InvalidRingCount)
    );
    assert_eq!(
        sample_frames(&vec![still], &Vec3::NEG_Z).err(),
        Some(ExtrudeError::InvalidRingCount)
    );
}

#[test]
fn frames_do_not_depend_on_their_neighbours() {
    let a = CurveSample { position: Vec3::ZERO, velocity: Vec3::new(1.0, 2.0, 0.5) };
    let b = CurveSample { position: Vec3::X, velocity: Vec3::new(-3.0, 0.1, 4.0) };
    let c = CurveSample { position: Vec3::Y, velocity: Vec3::new(0.0, 0.0, 9.0) };
    let forward = sample_frames(&vec![a, b, c], &Vec3::NEG_Z).unwrap();
    let backward = sample_frames(&vec![c, b, a], &Vec3::NEG_Z).unwrap();
    for i in 0..3 {
        assert_eq!(forward[i].position, backward[2 - i].position);
        assert_eq!(forward[i].rotation, backward[2 - i].rotation);
    }
}
