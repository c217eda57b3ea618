//! The physics of an entity that a player steers.
use vstd::prelude::*;
use crate::math::{Quaternion, SpawnConfig, Vector3};
use crate::replica::{
    ControllablePhysicsConstruction, ControllablePhysicsSerialization, FrameStats,
    FrameStatsTeleportInfo,
};
use crate::services::{GameObjectService, GameObjectServiceMut, GetPosition, GetRotation};

verus! {

/// The physics of an entity that a player steers: where it is and how it moves.
#[derive(Clone, Copy, Debug, PartialEq, Eq)]
pub struct ControllablePhysicsComponent {
    pub position: Vector3,
    pub rotation: Quaternion,
    pub is_on_ground: bool,
    pub is_on_rail: bool,
    pub linear_velocity: Option<Vector3>,
    pub angular_velocity: Option<Vector3>,
}

impl ControllablePhysicsComponent {
    /// The component of a new entity: at rest on the ground, at the configured place.
    pub open spec fn spec_new(config: &SpawnConfig) -> ControllablePhysicsComponent {
        ControllablePhysicsComponent {
            position: config.spec_position(),
            rotation: config.spec_rotation(),
            is_on_ground: true,
            is_on_rail: false,
            linear_velocity: None,
            angular_velocity: None,
        }
    }

    /// The component of a new entity: at rest on the ground, at the configured place.
    pub fn new(config: &SpawnConfig) -> (c: Self)
        ensures
            c == Self::spec_new(config),
    {
        ControllablePhysicsComponent {
            position: config.position(),
            rotation: config.rotation(),
            is_on_ground: true,
            is_on_rail: false,
            linear_velocity: None,
            angular_velocity: None,
        }
    }

    /// The full snapshot.
    pub open spec fn spec_construction(&self) -> ControllablePhysicsConstruction {
        ControllablePhysicsConstruction {
            frame_stats: Some(
                FrameStats {
                    position: self.position,
                    rotation: self.rotation,
                    is_on_ground: self.is_on_ground,
                    is_on_rail: self.is_on_rail,
                    linear_velocity: self.linear_velocity,
                    angular_velocity: self.angular_velocity,
                },
            ),
        }
    }

    /// The update snapshot.
    pub open spec fn spec_serialization(&self) -> ControllablePhysicsSerialization {
        ControllablePhysicsSerialization {
            frame_stats_teleport_info: Some(
                FrameStatsTeleportInfo {
                    frame_stats: FrameStats {
                    position: self.position,
                    rotation: self.rotation,
                    is_on_ground: self.is_on_ground,
                    is_on_rail: self.is_on_rail,
                    linear_velocity: self.linear_velocity,
                    angular_velocity: self.angular_velocity,
                },
                    is_teleporting: false,
                },
            ),
        }
    }

    /// The full snapshot.
    pub fn make_construction(&self) -> (r: ControllablePhysicsConstruction)
        ensures
            r == self.spec_construction(),
    {
        ControllablePhysicsConstruction {
            frame_stats: Some(
                FrameStats {
                    position: self.position,
                    rotation: self.rotation,
                    is_on_ground: self.is_on_ground,
                    is_on_rail: self.is_on_rail,
                    linear_velocity: self.linear_velocity,
                    angular_velocity: self.angular_velocity,
                },
            ),
        }
    }

    /// The update snapshot.
    pub fn make_serialization(&self) -> (r: ControllablePhysicsSerialization)
        ensures
            r == self.spec_serialization(),
    {
        ControllablePhysicsSerialization {
            frame_stats_teleport_info: Some(
                FrameStatsTeleportInfo {
                    frame_stats: FrameStats {
                    position: self.position,
                    rotation: self.rotation,
                    is_on_ground: self.is_on_ground,
                    is_on_rail: self.is_on_rail,
                    linear_velocity: self.linear_velocity,
                    angular_velocity: self.angular_velocity,
                },
                    is_teleporting: false,
                },
            ),
        }
    }

    /// The query after this component has seen it: a question for the position or the
    /// rotation holds this component's answer.
    pub open spec fn spec_run_service(&self, service: GameObjectService) -> GameObjectService {
        match service {
            GameObjectService::GetPosition(_) => GameObjectService::GetPosition(
                GetPosition(self.position),
            ),
            GameObjectService::GetRotation(_) => GameObjectService::GetRotation(
                GetRotation(self.rotation),
            ),
        }
    }

    /// Answers a query for the position or the rotation.
    pub fn run_service(&self, service: &mut GameObjectService)
        ensures
            *final(service) == self.spec_run_service(*old(service)),
    {
        match service {
            GameObjectService::GetPosition(x) => {
                x.0 = self.position;
            },
            GameObjectService::GetRotation(x) => {
                x.0 = self.rotation;
            },
        }
    }

    /// This component after a mutating query: new frame stats replace the old ones, any other
    /// query leaves it as it is.
    pub open spec fn spec_run_service_mut(
        &self,
        service: GameObjectServiceMut,
    ) -> ControllablePhysicsComponent {
        match service {
            GameObjectServiceMut::SetFrameStats(frame_stats) => ControllablePhysicsComponent {
                position: frame_stats.position,
                rotation: frame_stats.rotation,
                is_on_ground: frame_stats.is_on_ground,
                is_on_rail: frame_stats.is_on_rail,
                linear_velocity: frame_stats.linear_velocity,
                angular_velocity: frame_stats.angular_velocity,
            },
            _ => *self,
        }
    }

    /// Takes over new frame stats.
    pub fn run_service_mut(&mut self, service: &GameObjectServiceMut)
        ensures
            *final(self) == old(self).spec_run_service_mut(*service),
    {
        match service {
            GameObjectServiceMut::SetFrameStats(frame_stats) => {
                self.position = frame_stats.position;
                self.rotation = frame_stats.rotation;
                self.is_on_ground = frame_stats.is_on_ground;
                self.is_on_rail = frame_stats.is_on_rail;
                self.linear_velocity = frame_stats.linear_velocity;
                self.angular_velocity = frame_stats.angular_velocity;
            },
            _ => {},
        }
    }
}

} // verus!
