//! Queries that are put to an entity as a whole.
//!
//! A query is offered to every component in composition order. A component that knows the
//! query's kind answers or obeys it; every other component lets it pass. The caller needs no
//! knowledge of which components an entity is made of.
use vstd::prelude::*;
use crate::ids::Lot;
use crate::math::{Quaternion, Vector3};
use crate::replica::FrameStats;

verus! {

/// A query that reads. The payload is where the answer goes.
#[derive(Clone, Copy, Debug, PartialEq, Eq)]
pub enum GameObjectService {
    GetPosition(GetPosition),
    GetRotation(GetRotation),
}

/// Where is the entity?
#[derive(Clone, Copy, Debug, PartialEq, Eq)]
pub struct GetPosition(pub Vector3);

/// How is the entity turned?
#[derive(Clone, Copy, Debug, PartialEq, Eq)]
pub struct GetRotation(pub Quaternion);

/// A query that changes the entity.
#[derive(Clone, Copy, Debug, PartialEq, Eq)]
#[non_exhaustive]
pub enum GameObjectServiceMut {
    SetFrameStats(FrameStats),
    AddItem(AddItem),
    SetFaction(SetFaction),
}

/// Give the entity one item of the template `lot`.
#[derive(Clone, Copy, Debug, PartialEq, Eq)]
pub struct AddItem {
    pub lot: Lot,
}

/// Move the entity to a faction.
#[derive(Clone, Copy, Debug, PartialEq, Eq)]
pub struct SetFaction(pub i32);

impl GetPosition {
    /// The question, before anyone has answered: the origin.
    pub fn default() -> (q: GetPosition)
        ensures
            q == GetPosition(Vector3::spec_zero()),
    {
        GetPosition(Vector3::zero())
    }
}

impl GetRotation {
    /// The question, before anyone has answered: the zero rotation.
    pub fn default() -> (q: GetRotation)
        ensures
            q == GetRotation(Quaternion::spec_zero()),
    {
        GetRotation(Quaternion::zero())
    }
}

} // verus!
