//! The component, as an entity holds it: one of fourteen kinds.
use vstd::prelude::*;
use vstd::string::*;
use crate::connection::Connection;
use crate::error::Res;
use crate::math::SpawnConfig;
use crate::messages::ServerGM;
use crate::replica::{ComponentConstruction, ComponentSerialization};
use crate::services::{GameObjectService, GameObjectServiceMut};
use crate::state::State;
use super::{GameObject, Scene};
use super::base_combat_ai::BaseCombatAiComponent;
use super::bbb::BbbComponent;
use super::buff::BuffComponent;
use super::character::CharacterComponent;
use super::controllable_physics::ControllablePhysicsComponent;
use super::destroyable::{DestroyableComponent, DEFAULT_FACTION};
use super::fx::FxComponent;
use super::inventory::InventoryComponent;
use super::level_progression::LevelProgressionComponent;
use super::player_forced_movement::PlayerForcedMovementComponent;
use super::possession_control::PossessionControlComponent;
use super::script::ScriptComponent;
use super::simple_physics::SimplePhysicsComponent;
use super::skill::SkillComponent;

verus! {

/// One behavioural facet of an entity.
#[derive(Clone, Copy, Debug, PartialEq, Eq)]
pub enum Component {
    ControllablePhysics(ControllablePhysicsComponent),
    SimplePhysics(SimplePhysicsComponent),
    Character(CharacterComponent),
    Script(ScriptComponent),
    Destroyable(DestroyableComponent),
    Skill(SkillComponent),
    Inventory(InventoryComponent),
    Fx(FxComponent),
    BaseCombatAi(BaseCombatAiComponent),
    Buff(BuffComponent),
    PlayerForcedMovement(PlayerForcedMovementComponent),
    Bbb(BbbComponent),
    LevelProgression(LevelProgressionComponent),
    PossessionControl(PossessionControlComponent),
}

impl Component {
    /// The capability tag that this kind of component is built for.
    pub open spec fn spec_tag(&self) -> u32 {
        match self {
            Component::ControllablePhysics(_) => 1,
            Component::SimplePhysics(_) => 3,
            Component::Character(_) => 4,
            Component::Script(_) => 5,
            Component::Destroyable(_) => 7,
            Component::Skill(_) => 9,
            Component::Inventory(_) => 17,
            Component::Fx(_) => 44,
            Component::BaseCombatAi(_) => 60,
            Component::Buff(_) => 98,
            Component::PlayerForcedMovement(_) => 106,
            Component::Bbb(_) => 107,
            Component::LevelProgression(_) => 109,
            Component::PossessionControl(_) => 110,
        }
    }

    /// The capability tag that this kind of component is built for.
    pub fn tag(&self) -> (t: u32)
        ensures
            t == self.spec_tag(),
    {
        match self {
            Component::ControllablePhysics(_) => 1,
            Component::SimplePhysics(_) => 3,
            Component::Character(_) => 4,
            Component::Script(_) => 5,
            Component::Destroyable(_) => 7,
            Component::Skill(_) => 9,
            Component::Inventory(_) => 17,
            Component::Fx(_) => 44,
            Component::BaseCombatAi(_) => 60,
            Component::Buff(_) => 98,
            Component::PlayerForcedMovement(_) => 106,
            Component::Bbb(_) => 107,
            Component::LevelProgression(_) => 109,
            Component::PossessionControl(_) => 110,
        }
    }

    /// The component that a new entity gets for the capability `tag`, or `None` where no kind
    /// of component is built for that tag.
    pub open spec fn spec_new_c(tag: u32, config: &SpawnConfig) -> Option<Component> {
        if tag == 1 {
            Some(Component::ControllablePhysics(ControllablePhysicsComponent::spec_new(config)))
        } else if tag == 3 {
            Some(Component::SimplePhysics(SimplePhysicsComponent::spec_new(config)))
        } else if tag == 4 {
            Some(Component::Character(CharacterComponent {}))
        } else if tag == 5 {
            Some(Component::Script(ScriptComponent {}))
        } else if tag == 7 {
            Some(Component::Destroyable(DestroyableComponent { faction: DEFAULT_FACTION }))
        } else if tag == 9 {
            Some(Component::Skill(SkillComponent {}))
        } else if tag == 17 {
            Some(Component::Inventory(InventoryComponent {}))
        } else if tag == 44 {
            Some(Component::Fx(FxComponent {}))
        } else if tag == 60 {
            Some(Component::BaseCombatAi(BaseCombatAiComponent {}))
        } else if tag == 98 {
            Some(Component::Buff(BuffComponent {}))
        } else if tag == 106 {
            Some(Component::PlayerForcedMovement(PlayerForcedMovementComponent {}))
        } else if tag == 107 {
            Some(Component::Bbb(BbbComponent {}))
        } else if tag == 109 {
            Some(Component::LevelProgression(LevelProgressionComponent {}))
        } else if tag == 110 {
            Some(Component::PossessionControl(PossessionControlComponent {}))
        } else {
            None
        }
    }

    /// Builds the component for the capability `tag`, or returns `None` where no kind of
    /// component is built for that tag.
    pub fn new_c(tag: u32, config: &SpawnConfig) -> (c: Option<Component>)
        ensures
            c == Component::spec_new_c(tag, config),
            c is Some ==> c->0.spec_tag() == tag,
    {
        match tag {
            1 => Some(Component::ControllablePhysics(ControllablePhysicsComponent::new(config))),
            3 => Some(Component::SimplePhysics(SimplePhysicsComponent::new(config))),
            4 => Some(Component::Character(CharacterComponent::new(config))),
            5 => Some(Component::Script(ScriptComponent::new(config))),
            7 => Some(Component::Destroyable(DestroyableComponent::new(config))),
            9 => Some(Component::Skill(SkillComponent::new(config))),
            17 => Some(Component::Inventory(InventoryComponent::new(config))),
            44 => Some(Component::Fx(FxComponent::new(config))),
            60 => Some(Component::BaseCombatAi(BaseCombatAiComponent::new(config))),
            98 => Some(Component::Buff(BuffComponent::new(config))),
            106 => Some(Component::PlayerForcedMovement(PlayerForcedMovementComponent::new(config))),
            107 => Some(Component::Bbb(BbbComponent::new(config))),
            109 => Some(Component::LevelProgression(LevelProgressionComponent::new(config))),
            110 => Some(Component::PossessionControl(PossessionControlComponent::new(config))),
            _ => None,
        }
    }

    /// The full snapshot of this component.
    pub open spec fn spec_construction(&self) -> ComponentConstruction {
        match self {
            Component::ControllablePhysics(c) => ComponentConstruction::ControllablePhysics(
                c.spec_construction(),
            ),
            Component::SimplePhysics(c) => ComponentConstruction::SimplePhysics(
                c.spec_construction(),
            ),
            Component::Character(c) => ComponentConstruction::Character(c.spec_construction()),
            Component::Script(c) => ComponentConstruction::Script(c.spec_construction()),
            Component::Destroyable(c) => ComponentConstruction::Destroyable(c.spec_construction()),
            Component::Skill(c) => ComponentConstruction::Skill(c.spec_construction()),
            Component::Inventory(c) => ComponentConstruction::Inventory(c.spec_construction()),
            Component::Fx(c) => ComponentConstruction::Fx(c.spec_construction()),
            Component::BaseCombatAi(c) => ComponentConstruction::BaseCombatAi(
                c.spec_construction(),
            ),
            Component::Buff(c) => ComponentConstruction::Buff(c.spec_construction()),
            Component::PlayerForcedMovement(c) => ComponentConstruction::PlayerForcedMovement(
                c.spec_construction(),
            ),
            Component::Bbb(c) => ComponentConstruction::Bbb(c.spec_construction()),
            Component::LevelProgression(c) => ComponentConstruction::LevelProgression(
                c.spec_construction(),
            ),
            Component::PossessionControl(c) => ComponentConstruction::PossessionControl(
                c.spec_construction(),
            ),
        }
    }

    /// The update snapshot of this component.
    pub open spec fn spec_serialization(&self) -> ComponentSerialization {
        match self {
            Component::ControllablePhysics(c) => ComponentSerialization::ControllablePhysics(
                c.spec_serialization(),
            ),
            Component::SimplePhysics(c) => ComponentSerialization::SimplePhysics(
                c.spec_serialization(),
            ),
            Component::Character(c) => ComponentSerialization::Character(c.spec_serialization()),
            Component::Script(c) => ComponentSerialization::Script(c.spec_serialization()),
            Component::Destroyable(c) => ComponentSerialization::Destroyable(
                c.spec_serialization(),
            ),
            Component::Skill(c) => ComponentSerialization::Skill(c.spec_serialization()),
            Component::Inventory(c) => ComponentSerialization::Inventory(c.spec_serialization()),
            Component::Fx(c) => ComponentSerialization::Fx(c.spec_serialization()),
            Component::BaseCombatAi(c) => ComponentSerialization::BaseCombatAi(
                c.spec_serialization(),
            ),
            Component::Buff(c) => ComponentSerialization::Buff(c.spec_serialization()),
            Component::PlayerForcedMovement(c) => ComponentSerialization::PlayerForcedMovement(
                c.spec_serialization(),
            ),
            Component::Bbb(c) => ComponentSerialization::Bbb(c.spec_serialization()),
            Component::LevelProgression(c) => ComponentSerialization::LevelProgression(
                c.spec_serialization(),
            ),
            Component::PossessionControl(c) => ComponentSerialization::PossessionControl(
                c.spec_serialization(),
            ),
        }
    }

    /// The full snapshot of this component. It depends on the component's state alone.
    pub fn make_construction(&self) -> (r: ComponentConstruction)
        ensures
            r == self.spec_construction(),
    {
        match self {
            Component::ControllablePhysics(c) => ComponentConstruction::ControllablePhysics(
                c.make_construction(),
            ),
            Component::SimplePhysics(c) => ComponentConstruction::SimplePhysics(
                c.make_construction(),
            ),
            Component::Character(c) => ComponentConstruction::Character(c.make_construction()),
            Component::Script(c) => ComponentConstruction::Script(c.make_construction()),
            Component::Destroyable(c) => ComponentConstruction::Destroyable(c.make_construction()),
            Component::Skill(c) => ComponentConstruction::Skill(c.make_construction()),
            Component::Inventory(c) => ComponentConstruction::Inventory(c.make_construction()),
            Component::Fx(c) => ComponentConstruction::Fx(c.make_construction()),
            Component::BaseCombatAi(c) => ComponentConstruction::BaseCombatAi(
                c.make_construction(),
            ),
            Component::Buff(c) => ComponentConstruction::Buff(c.make_construction()),
            Component::PlayerForcedMovement(c) => ComponentConstruction::PlayerForcedMovement(
                c.make_construction(),
            ),
            Component::Bbb(c) => ComponentConstruction::Bbb(c.make_construction()),
            Component::LevelProgression(c) => ComponentConstruction::LevelProgression(
                c.make_construction(),
            ),
            Component::PossessionControl(c) => ComponentConstruction::PossessionControl(
                c.make_construction(),
            ),
        }
    }

    /// The update snapshot of this component. It depends on the component's state alone.
    pub fn make_serialization(&self) -> (r: ComponentSerialization)
        ensures
            r == self.spec_serialization(),
    {
        match self {
            Component::ControllablePhysics(c) => ComponentSerialization::ControllablePhysics(
                c.make_serialization(),
            ),
            Component::SimplePhysics(c) => ComponentSerialization::SimplePhysics(
                c.make_serialization(),
            ),
            Component::Character(c) => ComponentSerialization::Character(c.make_serialization()),
            Component::Script(c) => ComponentSerialization::Script(c.make_serialization()),
            Component::Destroyable(c) => ComponentSerialization::Destroyable(
                c.make_serialization(),
            ),
            Component::Skill(c) => ComponentSerialization::Skill(c.make_serialization()),
            Component::Inventory(c) => ComponentSerialization::Inventory(c.make_serialization()),
            Component::Fx(c) => ComponentSerialization::Fx(c.make_serialization()),
            Component::BaseCombatAi(c) => ComponentSerialization::BaseCombatAi(
                c.make_serialization(),
            ),
            Component::Buff(c) => ComponentSerialization::Buff(c.make_serialization()),
            Component::PlayerForcedMovement(c) => ComponentSerialization::PlayerForcedMovement(
                c.make_serialization(),
            ),
            Component::Bbb(c) => ComponentSerialization::Bbb(c.make_serialization()),
            Component::LevelProgression(c) => ComponentSerialization::LevelProgression(
                c.make_serialization(),
            ),
            Component::PossessionControl(c) => ComponentSerialization::PossessionControl(
                c.make_serialization(),
            ),
        }
    }

    /// This component's part of a character's saved data. Only an inventory has one.
    pub open spec fn spec_xml(&self) -> Seq<char> {
        match self {
            Component::Inventory(_) => InventoryComponent::spec_xml(),
            _ => Seq::empty(),
        }
    }

    /// Appends this component's part of a character's saved data to `writer`.
    pub fn write_xml(&self, writer: &mut String)
        ensures
            final(writer)@ == old(writer)@ + self.spec_xml(),
    {
        match self {
            Component::Inventory(c) => c.write_xml(writer),
            _ => {
                assert(writer@ + Seq::<char>::empty() =~= writer@);
            },
        }
    }
    /// The query after this component has seen it.
    pub open spec fn spec_run_service(&self, service: GameObjectService) -> GameObjectService {
        match self {
            Component::ControllablePhysics(c) => c.spec_run_service(service),
            Component::SimplePhysics(c) => c.spec_run_service(service),
            _ => service,
        }
    }

    /// Offers a reading query to this component. A component that knows the query's kind
    /// writes its answer into the query; any other leaves the query as it is.
    pub fn run_service(&self, service: &mut GameObjectService)
        ensures
            *final(service) == self.spec_run_service(*old(service)),
    {
        match self {
            Component::ControllablePhysics(c) => c.run_service(service),
            Component::SimplePhysics(c) => c.run_service(service),
            _ => {},
        }
    }
    /// This component and the scene after the component has seen a mutating query. A
    /// component that knows the query's kind obeys it; any other lets it pass.
    pub open spec fn spec_run_service_mut(
        self,
        service: GameObjectServiceMut,
        scene: Scene,
    ) -> (Component, Scene) {
        match self {
            Component::ControllablePhysics(c) => (
                Component::ControllablePhysics(c.spec_run_service_mut(service)),
                scene,
            ),
            Component::Destroyable(c) => (
                Component::Destroyable(c.spec_run_service_mut(service)),
                scene,
            ),
            Component::Inventory(_) => (
                self,
                InventoryComponent::spec_run_service_mut(service, scene),
            ),
            _ => (self, scene),
        }
    }

    /// This component and the scene after the component has seen a game message.
    pub open spec fn spec_on_game_message(self, msg: ServerGM, scene: Scene) -> (Component, Scene) {
        match self {
            Component::Character(_) => (self, CharacterComponent::spec_on_game_message(msg, scene)),
            _ => (self, scene),
        }
    }

    /// Offers a mutating query to this component. `game_object` is the rest of the entity
    /// that the component belongs to.
    pub fn run_service_mut(
        &mut self,
        service: &GameObjectServiceMut,
        game_object: &mut GameObject,
        state: &mut State,
        conn: &mut Connection,
    ) -> (r: Res<()>)
        requires
            old(state)@.wf(),
        ensures
            final(state)@.follows(old(state)@),
            (
                *final(self),
                Scene {
                    entity: final(game_object)@,
                    state: final(state)@,
                    conn: final(conn)@,
                    result: r,
                },
            ) == old(self).spec_run_service_mut(
                *service,
                Scene {
                    entity: old(game_object)@,
                    state: old(state)@,
                    conn: old(conn)@,
                    result: Ok(()),
                },
            ),
    {
        match self {
            Component::ControllablePhysics(c) => {
                c.run_service_mut(service);
                Ok(())
            },
            Component::Destroyable(c) => {
                c.run_service_mut(service);
                Ok(())
            },
            Component::Inventory(c) => c.run_service_mut(service, game_object, state, conn),
            _ => Ok(()),
        }
    }

    /// Delivers a game message to this component. `game_object` is the rest of the entity
    /// that the component belongs to.
    pub fn on_game_message(
        &mut self,
        msg: &ServerGM,
        game_object: &mut GameObject,
        state: &mut State,
        conn: &mut Connection,
    ) -> (r: Res<()>)
        requires
            old(state)@.wf(),
        ensures
            final(state)@.follows(old(state)@),
            (
                *final(self),
                Scene {
                    entity: final(game_object)@,
                    state: final(state)@,
                    conn: final(conn)@,
                    result: r,
                },
            ) == old(self).spec_on_game_message(
                *msg,
                Scene {
                    entity: old(game_object)@,
                    state: old(state)@,
                    conn: old(conn)@,
                    result: Ok(()),
                },
            ),
    {
        let ghost scene = Scene {
            entity: game_object@,
            state: state@,
            conn: conn@,
            result: Ok(()),
        };
        let r = match self {
            Component::Character(c) => c.on_game_message(msg, game_object, state, conn),
            Component::Inventory(c) => c.on_game_message(msg, game_object, state, conn),
            _ => Ok(()),
        };
        proof {
            let after = Scene { entity: game_object@, state: state@, conn: conn@, result: r };
            assert(*self == *old(self));
            match *old(self) {
                Component::Character(_) => {
                    assert(after == CharacterComponent::spec_on_game_message(*msg, scene));
                },
                Component::Inventory(_) => {
                    assert(after == scene);
                },
                _ => {
                    assert(after == scene);
                },
            }
        }
        r
    }
}

} // verus!
