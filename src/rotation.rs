//! Display rotation and its driver encoding.

use vstd::prelude::*;
use crate::status::ConfigError;

verus! {

/// A clockwise rotation of the image on a display.
#[derive(Debug, Clone, Copy, PartialEq, Eq)]
pub enum Rotation {
    Identity,
    Rotate90,
    Rotate180,
    Rotate270,
}

/// The rotation that a driver code names, if any.
pub open spec fn rotation_of_code(code: i32) -> Option<Rotation> {
    if code == 0 { Some(Rotation::Identity) }
    else if code == 1 { Some(Rotation::Rotate90) }
    else if code == 2 { Some(Rotation::Rotate180) }
    else if code == 3 { Some(Rotation::Rotate270) }
    else { None }
}

impl Rotation {
    /// The driver code of this rotation.
    pub open spec fn spec_code(self) -> i32 {
        match self {
            Rotation::Identity => 0,
            Rotation::Rotate90 => 1,
            Rotation::Rotate180 => 2,
            Rotation::Rotate270 => 3,
        }
    }

    /// The angle of this rotation, in degrees.
    pub open spec fn spec_degrees(self) -> u32 {
        match self {
            Rotation::Identity => 0,
            Rotation::Rotate90 => 90,
            Rotation::Rotate180 => 180,
            Rotation::Rotate270 => 270,
        }
    }

    /// The driver code of this rotation.
    pub fn code(self) -> (r: i32)
        ensures
            r == self.spec_code(),
    {
        match self {
            Rotation::Identity => 0,
            Rotation::Rotate90 => 1,
            Rotation::Rotate180 => 2,
            Rotation::Rotate270 => 3,
        }
    }

    /// The angle of this rotation, in degrees.
    pub fn degrees(self) -> (r: u32)
        ensures
            r == self.spec_degrees(),
    {
        match self {
            Rotation::Identity => 0,
            Rotation::Rotate90 => 90,
            Rotation::Rotate180 => 180,
            Rotation::Rotate270 => 270,
        }
    }

    /// The rotation that a driver code stands for; any other code is an error.
    pub fn from_code(code: i32) -> (r: Result<Rotation, ConfigError>)
        ensures
            match rotation_of_code(code) {
                Some(rot) => r == Ok::<Rotation, ConfigError>(rot),
                None => r == Err::<Rotation, ConfigError>(
                    ConfigError::InvalidRotationValue { value: code as i64 }),
            },
            r matches Ok(rot) ==> rot.spec_code() == code,
            r is Ok <==> 0 <= code <= 3,
    {
        if code == 0 {
            Ok(Rotation::Identity)
        } else if code == 1 {
            Ok(Rotation::Rotate90)
        } else if code == 2 {
            Ok(Rotation::Rotate180)
        } else if code == 3 {
            Ok(Rotation::Rotate270)
        } else {
            Err(ConfigError::InvalidRotationValue { value: code as i64 })
        }
    }

    /// The rotation by a number of degrees that a user gave; only 0, 90, 180
    /// and 270 name one.
    pub fn from_degrees(degrees: u32) -> (r: Result<Rotation, ConfigError>)
        ensures
            match r {
                Ok(rot) => rot.spec_degrees() == degrees,
                Err(e) => (forall|rot: Rotation| rot.spec_degrees() != degrees)
                    && e == ConfigError::InvalidRotationValue { value: degrees as i64 },
            },
            r is Ok <==> (degrees == 0 || degrees == 90 || degrees == 180 || degrees == 270),
    {
        if degrees == 0 {
            Ok(Rotation::Identity)
        } else if degrees == 90 {
            Ok(Rotation::Rotate90)
        } else if degrees == 180 {
            Ok(Rotation::Rotate180)
        } else if degrees == 270 {
            Ok(Rotation::Rotate270)
        } else {
            Err(ConfigError::InvalidRotationValue { value: degrees as i64 })
        }
    }
}

/// Each rotation has its own code, and that code decodes to it alone; a code
/// that no rotation has decodes to nothing.
pub proof fn lemma_rotation_code_round_trip(r: Rotation, other: Rotation)
    ensures
        0 <= r.spec_code() <= 3,
        rotation_of_code(r.spec_code()) == Some(r),
        r.spec_code() == other.spec_code() ==> r == other,
{
}

/// A code outside the four rotations' codes decodes to nothing.
pub proof fn lemma_unmapped_rotation_code(code: i32)
    requires
        !(0 <= code <= 3),
    ensures
        rotation_of_code(code) is None,
        forall|r: Rotation| r.spec_code() != code,
{
}

} // verus!
