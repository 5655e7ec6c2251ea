use compass::heading::{angle_to_direction, checked_angle_to_direction, Direction};
use compass::stub::StubbedRead;
use compass::task::block_on;

#[test]
fn octant_centres() {
    assert_eq!(angle_to_direction(0), Direction::South);
    assert_eq!(angle_to_direction(450), Direction::Southeast);
    assert_eq!(angle_to_direction(900), Direction::East);
    assert_eq!(angle_to_direction(1350), Direction::Northeast);
    assert_eq!(angle_to_direction(1800), Direction::North);
    assert_eq!(angle_to_direction(2250), Direction::Northwest);
    assert_eq!(angle_to_direction(2700), Direction::West);
    assert_eq!(angle_to_direction(3150), Direction::Southwest);
}

#[test]
fn octant_boundaries_fall_into_the_bucket_above() {
    // Each bucket edge lies exactly 22.5 degrees past a centre and
    // belongs to the next bucket; the last edge wraps back to South.
    assert_eq!(angle_to_direction(225), Direction::Southeast);
    assert_eq!(angle_to_direction(675), Direction::East);
    assert_eq!(angle_to_direction(1125), Direction::Northeast);
    assert_eq!(angle_to_direction(1575), Direction::North);
    assert_eq!(angle_to_direction(2025), Direction::Northwest);
    assert_eq!(angle_to_direction(2475), Direction::West);
    assert_eq!(angle_to_direction(2925), Direction::Southwest);
    assert_eq!(angle_to_direction(3375), Direction::South);
    // Just below an edge is still the bucket beneath it.
    assert_eq!(angle_to_direction(224), Direction::South);
    assert_eq!(angle_to_direction(3374), Direction::Southwest);
}

#[test]
fn octant_boundary_minus_pi_over_eight() {
    // An angle of -PI/8 radians normalizes to 337.5 degrees and lands
    // in South, consistently with the wrap-around edge.
    let radians = -std::f32::consts::PI / 8.0;
    let degrees = (radians.to_degrees() + 360.0) % 360.0;
    let tenths = (degrees * 10.0).round() as u16;
    assert_eq!(tenths, 3375);
    assert_eq!(angle_to_direction(tenths), Direction::South);
}

#[test]
fn octant_guard_rejects_unnormalized_angles() {
    assert_eq!(checked_angle_to_direction(3599), Some(Direction::South));
    assert_eq!(checked_angle_to_direction(3600), None);
    assert_eq!(checked_angle_to_direction(u16::MAX), None);
}

#[test]
fn end_to_end_scripted_read_points_south() {
    // A scripted peripheral hands back X=100, Z=0, Y=0: the heading
    // angle is 0 radians and the octant is South.
    let mut op = StubbedRead::new(vec![0x00, 0x64, 0x00, 0x00, 0x00, 0x00]);
    let s = block_on(&mut op, 100).expect("the scripted read must complete");
    assert_eq!((s.x, s.y, s.z), (100, 0, 0));

    let radians = (s.y as f32).atan2(s.x as f32);
    assert_eq!(radians, 0.0);
    let degrees = (radians.to_degrees() + 360.0) % 360.0;
    let tenths = (degrees * 10.0).round() as u16 % 3600;
    assert_eq!(angle_to_direction(tenths), Direction::South);
}
