//! The list of buffs on an entity. It is always empty.
use vstd::prelude::*;
use crate::math::SpawnConfig;
use crate::replica::{BuffConstruction, BuffSerialization};

verus! {

/// The list of buffs on an entity. It is always empty.
#[derive(Clone, Copy, Debug, PartialEq, Eq, Structural)]
pub struct BuffComponent {
}

impl BuffComponent {
    /// The component of a new entity. The spawn configuration has no bearing on it.
    pub fn new(_config: &SpawnConfig) -> (c: Self)
        ensures
            c == (BuffComponent {}),
    {
        Self {}
    }

    /// The full snapshot.
    pub open spec fn spec_construction(&self) -> BuffConstruction {
        BuffConstruction {}
    }

    /// The update snapshot.
    pub open spec fn spec_serialization(&self) -> BuffSerialization {
        BuffSerialization {}
    }

    /// The full snapshot.
    pub fn make_construction(&self) -> (r: BuffConstruction)
        ensures
            r == self.spec_construction(),
    {
        BuffConstruction {}
    }

    /// The update snapshot.
    pub fn make_serialization(&self) -> (r: BuffSerialization)
        ensures
            r == self.spec_serialization(),
    {
        BuffSerialization {}
    }
}

} // verus!
