//! A script attached to an entity. It publishes no variables.
use vstd::prelude::*;
use crate::math::SpawnConfig;
use crate::replica::{ScriptConstruction, ScriptSerialization};

verus! {

/// A script attached to an entity. It publishes no variables.
#[derive(Clone, Copy, Debug, PartialEq, Eq, Structural)]
pub struct ScriptComponent {
}

impl ScriptComponent {
    /// The component of a new entity. The spawn configuration has no bearing on it.
    pub fn new(_config: &SpawnConfig) -> (c: Self)
        ensures
            c == (ScriptComponent {}),
    {
        Self {}
    }

    /// The full snapshot.
    pub open spec fn spec_construction(&self) -> ScriptConstruction {
        ScriptConstruction {}
    }

    /// The update snapshot.
    pub open spec fn spec_serialization(&self) -> ScriptSerialization {
        ScriptSerialization {}
    }

    /// The full snapshot.
    pub fn make_construction(&self) -> (r: ScriptConstruction)
        ensures
            r == self.spec_construction(),
    {
        ScriptConstruction {}
    }

    /// The update snapshot.
    pub fn make_serialization(&self) -> (r: ScriptSerialization)
        ensures
            r == self.spec_serialization(),
    {
        ScriptSerialization {}
    }
}

} // verus!
