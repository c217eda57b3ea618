//! Single-precision quantities, positions and rotations.
//!
//! Positions travel through the server untouched: they are stored, copied and sent, never
//! computed with. A number is therefore carried as the bit pattern of its IEEE-754
//! single-precision encoding, which keeps every value exactly comparable.
use vstd::prelude::*;

verus! {

/// A single-precision number, held as the 32 bits of its encoding.
#[derive(Clone, Copy, Debug, PartialEq, Eq, Structural)]
pub struct Single {
    pub bits: u32,
}

/// Encoding of zero.
pub const ZERO_BITS: u32 = 0;

/// Encoding of 156, the default x position of a new entity.
pub const DEFAULT_POSITION_X_BITS: u32 = 0x431C_0000;

/// Encoding of 380, the default y position of a new entity.
pub const DEFAULT_POSITION_Y_BITS: u32 = 0x43BE_0000;

/// Encoding of -187, the default z position of a new entity.
pub const DEFAULT_POSITION_Z_BITS: u32 = 0xC33B_0000;

impl Single {
    /// The number with the given encoding.
    pub fn from_bits(bits: u32) -> (s: Single)
        ensures
            s == (Single { bits }),
    {
        Single { bits }
    }

    /// The encoding of this number.
    pub fn to_bits(&self) -> (bits: u32)
        ensures
            bits == self.bits,
    {
        self.bits
    }

    /// The given number, or the number encoded by `default_bits` where none is given.
    pub fn or_default(value: Option<Single>, default_bits: u32) -> (s: Single)
        ensures
            s == Single::spec_or_default(value, default_bits),
    {
        match value {
            Some(x) => x,
            None => Single { bits: default_bits },
        }
    }

    pub open spec fn spec_or_default(value: Option<Single>, default_bits: u32) -> Single {
        match value {
            Some(x) => x,
            None => Single { bits: default_bits },
        }
    }
}

/// A point in world space.
#[derive(Clone, Copy, Debug, PartialEq, Eq, Structural)]
pub struct Vector3 {
    pub x: Single,
    pub y: Single,
    pub z: Single,
}

/// A rotation.
#[derive(Clone, Copy, Debug, PartialEq, Eq, Structural)]
pub struct Quaternion {
    pub x: Single,
    pub y: Single,
    pub z: Single,
    pub w: Single,
}

impl Vector3 {
    /// The origin.
    pub open spec fn spec_zero() -> Vector3 {
        Vector3 {
            x: Single { bits: ZERO_BITS },
            y: Single { bits: ZERO_BITS },
            z: Single { bits: ZERO_BITS },
        }
    }

    /// The origin.
    pub fn zero() -> (v: Vector3)
        ensures
            v == Vector3::spec_zero(),
    {
        Vector3 {
            x: Single { bits: ZERO_BITS },
            y: Single { bits: ZERO_BITS },
            z: Single { bits: ZERO_BITS },
        }
    }
}

impl Quaternion {
    /// The rotation whose four parts are zero.
    pub open spec fn spec_zero() -> Quaternion {
        Quaternion {
            x: Single { bits: ZERO_BITS },
            y: Single { bits: ZERO_BITS },
            z: Single { bits: ZERO_BITS },
            w: Single { bits: ZERO_BITS },
        }
    }

    /// The rotation whose four parts are zero.
    pub fn zero() -> (q: Quaternion)
        ensures
            q == Quaternion::spec_zero(),
    {
        Quaternion {
            x: Single { bits: ZERO_BITS },
            y: Single { bits: ZERO_BITS },
            z: Single { bits: ZERO_BITS },
            w: Single { bits: ZERO_BITS },
        }
    }
}

/// What a spawn request may fix about the new entity: any part of its position and rotation.
/// A part that is left open falls back to the component's default.
#[derive(Clone, Copy, Debug, PartialEq, Eq, Structural)]
pub struct SpawnConfig {
    pub position_x: Option<Single>,
    pub position_y: Option<Single>,
    pub position_z: Option<Single>,
    pub rotation_x: Option<Single>,
    pub rotation_y: Option<Single>,
    pub rotation_z: Option<Single>,
    pub rotation_w: Option<Single>,
}

impl SpawnConfig {
    /// The configuration that fixes nothing.
    pub open spec fn spec_empty() -> SpawnConfig {
        SpawnConfig {
            position_x: None,
            position_y: None,
            position_z: None,
            rotation_x: None,
            rotation_y: None,
            rotation_z: None,
            rotation_w: None,
        }
    }

    /// The configuration that fixes nothing.
    pub fn empty() -> (c: SpawnConfig)
        ensures
            c == SpawnConfig::spec_empty(),
    {
        SpawnConfig {
            position_x: None,
            position_y: None,
            position_z: None,
            rotation_x: None,
            rotation_y: None,
            rotation_z: None,
            rotation_w: None,
        }
    }

    /// The configuration that places an entity at `position`, turned by `rotation`.
    pub open spec fn spec_at(position: Vector3, rotation: Quaternion) -> SpawnConfig {
        SpawnConfig {
            position_x: Some(position.x),
            position_y: Some(position.y),
            position_z: Some(position.z),
            rotation_x: Some(rotation.x),
            rotation_y: Some(rotation.y),
            rotation_z: Some(rotation.z),
            rotation_w: Some(rotation.w),
        }
    }

    /// The configuration that places an entity at `position`, turned by `rotation`.
    pub fn at(position: Vector3, rotation: Quaternion) -> (c: SpawnConfig)
        ensures
            c == SpawnConfig::spec_at(position, rotation),
    {
        SpawnConfig {
            position_x: Some(position.x),
            position_y: Some(position.y),
            position_z: Some(position.z),
            rotation_x: Some(rotation.x),
            rotation_y: Some(rotation.y),
            rotation_z: Some(rotation.z),
            rotation_w: Some(rotation.w),
        }
    }

    /// The position this configuration asks for, defaults filled in.
    pub open spec fn spec_position(&self) -> Vector3 {
        Vector3 {
            x: Single::spec_or_default(self.position_x, DEFAULT_POSITION_X_BITS),
            y: Single::spec_or_default(self.position_y, DEFAULT_POSITION_Y_BITS),
            z: Single::spec_or_default(self.position_z, DEFAULT_POSITION_Z_BITS),
        }
    }

    /// The rotation this configuration asks for, defaults filled in.
    pub open spec fn spec_rotation(&self) -> Quaternion {
        Quaternion {
            x: Single::spec_or_default(self.rotation_x, ZERO_BITS),
            y: Single::spec_or_default(self.rotation_y, ZERO_BITS),
            z: Single::spec_or_default(self.rotation_z, ZERO_BITS),
            w: Single::spec_or_default(self.rotation_w, ZERO_BITS),
        }
    }

    /// The position this configuration asks for, defaults filled in.
    pub fn position(&self) -> (p: Vector3)
        ensures
            p == self.spec_position(),
    {
        Vector3 {
            x: Single::or_default(self.position_x, DEFAULT_POSITION_X_BITS),
            y: Single::or_default(self.position_y, DEFAULT_POSITION_Y_BITS),
            z: Single::or_default(self.position_z, DEFAULT_POSITION_Z_BITS),
        }
    }

    /// The rotation this configuration asks for, defaults filled in.
    pub fn rotation(&self) -> (q: Quaternion)
        ensures
            q == self.spec_rotation(),
    {
        Quaternion {
            x: Single::or_default(self.rotation_x, ZERO_BITS),
            y: Single::or_default(self.rotation_y, ZERO_BITS),
            z: Single::or_default(self.rotation_z, ZERO_BITS),
            w: Single::or_default(self.rotation_w, ZERO_BITS),
        }
    }
}

} // verus!
