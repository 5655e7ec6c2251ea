//! The compass-octant bucketing of a heading angle.
//!
//! A heading is handed in as a whole number of tenths of a degree,
//! normalized to `[0, 3600)`; converting a measured angle to that form
//! is the caller's concern, as is the trigonometry that produces the
//! angle. The circle is split into eight 45-degree buckets, each
//! centred on its direction, with South centred on angle zero: the
//! bucket edges lie at 22.5, 67.5, ... degrees, and an angle exactly on
//! an edge belongs to the bucket above it. An angle outside `[0, 3600)`
//! is a caller error: the checked entry point reports it instead of
//! returning a silently wrong octant.

use vstd::prelude::*;

verus! {

/// One of the eight compass-direction buckets.
#[derive(Clone, Copy, PartialEq, Eq, Structural, Debug)]
pub enum Direction {
    North,
    Northeast,
    East,
    Southeast,
    South,
    Southwest,
    West,
    Northwest,
}

/// The direction of a heading of `tenths` tenths of a degree: bucket
/// `(tenths + 225) / 450`, with the first and the last bucket both
/// South (the last wraps around through zero).
pub open spec fn direction_spec(tenths: int) -> Direction
    recommends
        0 <= tenths < 3600,
{
    let bucket = (tenths + 225) / 450;
    if bucket == 1 {
        Direction::Southeast
    } else if bucket == 2 {
        Direction::East
    } else if bucket == 3 {
        Direction::Northeast
    } else if bucket == 4 {
        Direction::North
    } else if bucket == 5 {
        Direction::Northwest
    } else if bucket == 6 {
        Direction::West
    } else if bucket == 7 {
        Direction::Southwest
    } else {
        Direction::South
    }
}

/// Maps a normalized heading to its compass octant. Total over the
/// whole normalized range; every bucket edge falls into the bucket
/// above it.
pub fn angle_to_direction(tenths: u16) -> (d: Direction)
    requires
        tenths < 3600,
    ensures
        d == direction_spec(tenths as int),
{
    let bucket: u16 = (tenths + 225) / 450;
    match bucket {
        1 => Direction::Southeast,
        2 => Direction::East,
        3 => Direction::Northeast,
        4 => Direction::North,
        5 => Direction::Northwest,
        6 => Direction::West,
        7 => Direction::Southwest,
        _ => Direction::South,
    }
}

/// Maps any angle to its compass octant if it is a normalized heading,
/// and reports the caller error otherwise: exactly the angles in
/// `[0, 3600)` have an octant.
pub fn checked_angle_to_direction(tenths: u16) -> (r: Option<Direction>)
    ensures
        r is Some <==> tenths < 3600,
        tenths < 3600 ==> r == Some(direction_spec(tenths as int)),
{
    if tenths < 3600 {
        Some(angle_to_direction(tenths))
    } else {
        None
    }
}

} // verus!
