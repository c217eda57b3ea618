//! A combat behaviour. It holds no state and reports none.
use vstd::prelude::*;
use crate::math::SpawnConfig;
use crate::replica::{BaseCombatAiConstruction, BaseCombatAiSerialization};

verus! {

/// A combat behaviour. It holds no state and reports none.
#[derive(Clone, Copy, Debug, PartialEq, Eq, Structural)]
pub struct BaseCombatAiComponent {
}

impl BaseCombatAiComponent {
    /// The component of a new entity. The spawn configuration has no bearing on it.
    pub fn new(_config: &SpawnConfig) -> (c: Self)
        ensures
            c == (BaseCombatAiComponent {}),
    {
        Self {}
    }

    /// The full snapshot.
    pub open spec fn spec_construction(&self) -> BaseCombatAiConstruction {
        BaseCombatAiConstruction {}
    }

    /// The update snapshot.
    pub open spec fn spec_serialization(&self) -> BaseCombatAiSerialization {
        BaseCombatAiSerialization {}
    }

    /// The full snapshot.
    pub fn make_construction(&self) -> (r: BaseCombatAiConstruction)
        ensures
            r == self.spec_construction(),
    {
        BaseCombatAiConstruction {}
    }

    /// The update snapshot.
    pub fn make_serialization(&self) -> (r: BaseCombatAiSerialization)
        ensures
            r == self.spec_serialization(),
    {
        BaseCombatAiSerialization {}
    }
}

} // verus!
