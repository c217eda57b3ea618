//! The marker of a model that a player built. It names no source item.
use vstd::prelude::*;
use crate::math::SpawnConfig;
use crate::replica::{BbbConstruction, BbbSerialization};

verus! {

/// The marker of a model that a player built. It names no source item.
#[derive(Clone, Copy, Debug, PartialEq, Eq, Structural)]
pub struct BbbComponent {
}

impl BbbComponent {
    /// The component of a new entity. The spawn configuration has no bearing on it.
    pub fn new(_config: &SpawnConfig) -> (c: Self)
        ensures
            c == (BbbComponent {}),
    {
        Self {}
    }

    /// The full snapshot.
    pub open spec fn spec_construction(&self) -> BbbConstruction {
        BbbConstruction { metadata_source_item: None, }
    }

    /// The update snapshot.
    pub open spec fn spec_serialization(&self) -> BbbSerialization {
        BbbSerialization { metadata_source_item: None, }
    }

    /// The full snapshot.
    pub fn make_construction(&self) -> (r: BbbConstruction)
        ensures
            r == self.spec_construction(),
    {
        BbbConstruction { metadata_source_item: None, }
    }

    /// The update snapshot.
    pub fn make_serialization(&self) -> (r: BbbSerialization)
        ensures
            r == self.spec_serialization(),
    {
        BbbSerialization { metadata_source_item: None, }
    }
}

} // verus!
