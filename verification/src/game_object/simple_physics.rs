//! The physics of an entity that stays where it was put.
use vstd::prelude::*;
use crate::math::{Quaternion, SpawnConfig, Vector3};
use crate::replica::{PositionRotationInfo, SimplePhysicsConstruction, SimplePhysicsSerialization};
use crate::services::{GameObjectService, GetPosition, GetRotation};

verus! {

/// The physics of an entity that stays where it was put.
#[derive(Clone, Copy, Debug, PartialEq, Eq)]
pub struct SimplePhysicsComponent {
    pub position: Vector3,
    pub rotation: Quaternion,
}

impl SimplePhysicsComponent {
    /// The component of a new entity, at the configured place.
    pub open spec fn spec_new(config: &SpawnConfig) -> SimplePhysicsComponent {
        SimplePhysicsComponent { position: config.spec_position(), rotation: config.spec_rotation() }
    }

    /// The component of a new entity, at the configured place.
    pub fn new(config: &SpawnConfig) -> (c: Self)
        ensures
            c == Self::spec_new(config),
    {
        SimplePhysicsComponent { position: config.position(), rotation: config.rotation() }
    }

    /// The full snapshot.
    pub open spec fn spec_construction(&self) -> SimplePhysicsConstruction {
        SimplePhysicsConstruction {
            motion_type: None,
            position_rotation_info: Some(
                PositionRotationInfo { position: self.position, rotation: self.rotation },
            ),
        }
    }

    /// The update snapshot. The place of such an entity never changes, so none is reported.
    pub open spec fn spec_serialization(&self) -> SimplePhysicsSerialization {
        SimplePhysicsSerialization { motion_type: None, position_rotation_info: None }
    }

    /// The full snapshot.
    pub fn make_construction(&self) -> (r: SimplePhysicsConstruction)
        ensures
            r == self.spec_construction(),
    {
        SimplePhysicsConstruction {
            motion_type: None,
            position_rotation_info: Some(
                PositionRotationInfo { position: self.position, rotation: self.rotation },
            ),
        }
    }

    /// The update snapshot.
    pub fn make_serialization(&self) -> (r: SimplePhysicsSerialization)
        ensures
            r == self.spec_serialization(),
    {
        SimplePhysicsSerialization { motion_type: None, position_rotation_info: None }
    }

    /// The query after this component has seen it: a question for the position or the
    /// rotation holds this component's answer.
    pub open spec fn spec_run_service(&self, service: GameObjectService) -> GameObjectService {
        match service {
            GameObjectService::GetPosition(_) => GameObjectService::GetPosition(
                GetPosition(self.position),
            ),
            GameObjectService::GetRotation(_) => GameObjectService::GetRotation(
                GetRotation(self.rotation),
            ),
        }
    }

    /// Answers a query for the position or the rotation.
    pub fn run_service(&self, service: &mut GameObjectService)
        ensures
            *final(service) == self.spec_run_service(*old(service)),
    {
        match service {
            GameObjectService::GetPosition(x) => {
                x.0 = self.position;
            },
            GameObjectService::GetRotation(x) => {
                x.0 = self.rotation;
            },
        }
    }
}

} // verus!
