//! The skills an entity is using. None is ever in progress.
use vstd::prelude::*;
use crate::math::SpawnConfig;
use crate::replica::{SkillConstruction, SkillSerialization};

verus! {

/// The skills an entity is using. None is ever in progress.
#[derive(Clone, Copy, Debug, PartialEq, Eq, Structural)]
pub struct SkillComponent {
}

impl SkillComponent {
    /// The component of a new entity. The spawn configuration has no bearing on it.
    pub fn new(_config: &SpawnConfig) -> (c: Self)
        ensures
            c == (SkillComponent {}),
    {
        Self {}
    }

    /// The full snapshot.
    pub open spec fn spec_construction(&self) -> SkillConstruction {
        SkillConstruction {}
    }

    /// The update snapshot.
    pub open spec fn spec_serialization(&self) -> SkillSerialization {
        SkillSerialization {}
    }

    /// The full snapshot.
    pub fn make_construction(&self) -> (r: SkillConstruction)
        ensures
            r == self.spec_construction(),
    {
        SkillConstruction {}
    }

    /// The update snapshot.
    pub fn make_serialization(&self) -> (r: SkillSerialization)
        ensures
            r == self.spec_serialization(),
    {
        SkillSerialization {}
    }
}

} // verus!
