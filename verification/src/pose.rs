//! The reference pose that every frame carries.

use vstd::prelude::*;

verus! {

/// A position in space; each coordinate is a binary64 bit pattern.
#[derive(Clone, Copy, Debug, PartialEq, Eq, Structural)]
pub struct Vector3 {
    pub x: u64,
    pub y: u64,
    pub z: u64,
}

/// An orientation; each component is a binary64 bit pattern.
#[derive(Clone, Copy, Debug, PartialEq, Eq, Structural)]
pub struct Quaternion {
    pub x: u64,
    pub y: u64,
    pub z: u64,
    pub w: u64,
}

/// Where the sensor sits in the frame of reference.
#[derive(Clone, Copy, Debug, PartialEq, Eq, Structural)]
pub struct Pose {
    pub position: Vector3,
    pub orientation: Quaternion,
}

impl Pose {
    /// The pose with every component zero, at which the sensor is mounted.
    pub fn origin() -> (pose: Pose)
        ensures
            pose == (Pose {
                position: Vector3 { x: 0, y: 0, z: 0 },
                orientation: Quaternion { x: 0, y: 0, z: 0, w: 0 },
            }),
    {
        Pose {
            position: Vector3 { x: 0, y: 0, z: 0 },
            orientation: Quaternion { x: 0, y: 0, z: 0, w: 0 },
        }
    }
}

} // verus!
