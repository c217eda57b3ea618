//! The visual effects that play on an entity. None ever plays.
use vstd::prelude::*;
use crate::math::SpawnConfig;
use crate::replica::{FxConstruction, FxSerialization};

verus! {

/// The visual effects that play on an entity. None ever plays.
#[derive(Clone, Copy, Debug, PartialEq, Eq, Structural)]
pub struct FxComponent {
}

impl FxComponent {
    /// The component of a new entity. The spawn configuration has no bearing on it.
    pub fn new(_config: &SpawnConfig) -> (c: Self)
        ensures
            c == (FxComponent {}),
    {
        Self {}
    }

    /// The full snapshot.
    pub open spec fn spec_construction(&self) -> FxConstruction {
        FxConstruction {}
    }

    /// The update snapshot.
    pub open spec fn spec_serialization(&self) -> FxSerialization {
        FxSerialization {}
    }

    /// The full snapshot.
    pub fn make_construction(&self) -> (r: FxConstruction)
        ensures
            r == self.spec_construction(),
    {
        FxConstruction {}
    }

    /// The update snapshot.
    pub fn make_serialization(&self) -> (r: FxSerialization)
        ensures
            r == self.spec_serialization(),
    {
        FxSerialization {}
    }
}

} // verus!
