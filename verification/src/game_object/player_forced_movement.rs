//! Movement that the server forces on a player. None is ever forced.
use vstd::prelude::*;
use crate::math::SpawnConfig;
use crate::replica::{PlayerForcedMovementConstruction, PlayerForcedMovementSerialization};

verus! {

/// Movement that the server forces on a player. None is ever forced.
#[derive(Clone, Copy, Debug, PartialEq, Eq, Structural)]
pub struct PlayerForcedMovementComponent {
}

impl PlayerForcedMovementComponent {
    /// The component of a new entity. The spawn configuration has no bearing on it.
    pub fn new(_config: &SpawnConfig) -> (c: Self)
        ensures
            c == (PlayerForcedMovementComponent {}),
    {
        Self {}
    }

    /// The full snapshot.
    pub open spec fn spec_construction(&self) -> PlayerForcedMovementConstruction {
        PlayerForcedMovementConstruction {}
    }

    /// The update snapshot.
    pub open spec fn spec_serialization(&self) -> PlayerForcedMovementSerialization {
        PlayerForcedMovementSerialization {}
    }

    /// The full snapshot.
    pub fn make_construction(&self) -> (r: PlayerForcedMovementConstruction)
        ensures
            r == self.spec_construction(),
    {
        PlayerForcedMovementConstruction {}
    }

    /// The update snapshot.
    pub fn make_serialization(&self) -> (r: PlayerForcedMovementSerialization)
        ensures
            r == self.spec_serialization(),
    {
        PlayerForcedMovementSerialization {}
    }
}

} // verus!
