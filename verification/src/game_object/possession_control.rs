//! Control of one entity over another. Nothing is ever possessed.
use vstd::prelude::*;
use crate::math::SpawnConfig;
use crate::replica::{PossessionControlConstruction, PossessionControlSerialization};

verus! {

/// Control of one entity over another. Nothing is ever possessed.
#[derive(Clone, Copy, Debug, PartialEq, Eq, Structural)]
pub struct PossessionControlComponent {
}

impl PossessionControlComponent {
    /// The component of a new entity. The spawn configuration has no bearing on it.
    pub fn new(_config: &SpawnConfig) -> (c: Self)
        ensures
            c == (PossessionControlComponent {}),
    {
        Self {}
    }

    /// The full snapshot.
    pub open spec fn spec_construction(&self) -> PossessionControlConstruction {
        PossessionControlConstruction {}
    }

    /// The update snapshot.
    pub open spec fn spec_serialization(&self) -> PossessionControlSerialization {
        PossessionControlSerialization {}
    }

    /// The full snapshot.
    pub fn make_construction(&self) -> (r: PossessionControlConstruction)
        ensures
            r == self.spec_construction(),
    {
        PossessionControlConstruction {}
    }

    /// The update snapshot.
    pub fn make_serialization(&self) -> (r: PossessionControlSerialization)
        ensures
            r == self.spec_serialization(),
    {
        PossessionControlSerialization {}
    }
}

} // verus!
