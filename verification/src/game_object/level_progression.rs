//! A player's level. It is never reported.
use vstd::prelude::*;
use crate::math::SpawnConfig;
use crate::replica::{LevelProgressionConstruction, LevelProgressionSerialization};

verus! {

/// A player's level. It is never reported.
#[derive(Clone, Copy, Debug, PartialEq, Eq, Structural)]
pub struct LevelProgressionComponent {
}

impl LevelProgressionComponent {
    /// The component of a new entity. The spawn configuration has no bearing on it.
    pub fn new(_config: &SpawnConfig) -> (c: Self)
        ensures
            c == (LevelProgressionComponent {}),
    {
        Self {}
    }

    /// The full snapshot.
    pub open spec fn spec_construction(&self) -> LevelProgressionConstruction {
        LevelProgressionConstruction { current_level: None, }
    }

    /// The update snapshot.
    pub open spec fn spec_serialization(&self) -> LevelProgressionSerialization {
        LevelProgressionSerialization { current_level: None, }
    }

    /// The full snapshot.
    pub fn make_construction(&self) -> (r: LevelProgressionConstruction)
        ensures
            r == self.spec_construction(),
    {
        LevelProgressionConstruction { current_level: None, }
    }

    /// The update snapshot.
    pub fn make_serialization(&self) -> (r: LevelProgressionSerialization)
        ensures
            r == self.spec_serialization(),
    {
        LevelProgressionSerialization { current_level: None, }
    }
}

} // verus!
