//! Entities and the components they are made of.
//!
//! An entity is an ordered list of components under one identity. The order is fixed when the
//! entity is built and never changes afterwards: snapshots list components by position.
pub mod base_combat_ai;
pub mod bbb;
pub mod buff;
pub mod character;
pub mod component;
pub mod composition;
pub mod controllable_physics;
pub mod destroyable;
pub mod fx;
pub mod inventory;
pub mod level_progression;
pub mod player_forced_movement;
pub mod possession_control;
pub mod script;
pub mod simple_physics;
pub mod skill;

use vstd::prelude::*;
use vstd::string::*;
use crate::connection::{Connection, ConnectionView};
use crate::error::{Error, Res};
use crate::ids::{Lot, ObjId};
use crate::math::SpawnConfig;
use crate::messages::{ClientGM, ClientSGM, OutMessage, OutMessageView, ServerGM};
use crate::replica::{
    ComponentConstruction, ComponentSerialization, ReplicaConstruction, ReplicaConstructionView,
    ReplicaSerialization, ReplicaSerializationView,
};
use crate::services::{GameObjectService, GameObjectServiceMut};
use crate::state::{State, StateView};
use crate::text::{decimal, spec_decimal};
use self::component::Component;
use self::composition::{
    compose, is_ranked, spec_compose, spec_create_components, spec_listed,
    spec_needs_no_component, spec_rank,
};

verus! {

/// The name that every construction snapshot carries.
pub const REPLICA_NAME: &'static str = "Todd Howard";

/// What opens an entity's saved data.
pub const XML_OPEN: &'static str = "<obj v=\"1\">";

/// What closes an entity's saved data.
pub const XML_CLOSE: &'static str = "</obj>";

/// An entity: an identity and an ordered list of components.
pub struct GameObject {
    network_id: u16,
    object_id: ObjId,
    lot: Lot,
    name: String,
    components: Vec<Component>,
}

/// An entity, as a mathematical value.
pub struct GameObjectView {
    /// The short identifier under which snapshots of the entity travel.
    pub network_id: u16,
    /// The identity of the entity. Its high bits name the partition it was issued from.
    pub object_id: ObjId,
    /// The template the entity was built from.
    pub lot: Lot,
    /// The display name.
    pub name: Seq<char>,
    /// The components, in composition order.
    pub components: Seq<Component>,
}

/// What a handler works on, and what it returns.
///
/// While a component handles something, it is taken out of its entity: `entity` is then the
/// rest of the entity. While an entity handles something, it is taken out of the registry:
/// `state` is then the registry without it.
pub struct Scene {
    /// The entity that the handler belongs to.
    pub entity: GameObjectView,
    /// The world registry.
    pub state: StateView,
    /// The connection that the handled message came over.
    pub conn: ConnectionView,
    /// What the handler returns. Before any handler has run, this is `Ok`.
    pub result: Res<()>,
}

/// The saved data of the first `n` components, one after the other.
pub open spec fn spec_components_xml(components: Seq<Component>, n: int) -> Seq<char>
    decreases n,
{
    if n <= 0 {
        Seq::empty()
    } else {
        spec_components_xml(components, n - 1) + components[n - 1].spec_xml()
    }
}

/// The query after the first `n` components have seen it, each in turn.
pub open spec fn spec_offer_service(
    components: Seq<Component>,
    service: GameObjectService,
    n: int,
) -> GameObjectService
    decreases n,
{
    if n <= 0 {
        service
    } else {
        components[n - 1].spec_run_service(spec_offer_service(components, service, n - 1))
    }
}

/// The scene after the first `n` components of the entity have been offered a mutating
/// query, each in turn. The component whose turn it is is taken out of the entity, handles
/// the query with the rest of the entity before it, and is put back in its place. Once a
/// component has failed, no further component is offered the query.
pub open spec fn spec_offer_service_mut(
    scene: Scene,
    service: GameObjectServiceMut,
    n: int,
) -> Scene
    decreases n,
{
    if n <= 0 {
        scene
    } else {
        let before = spec_offer_service_mut(scene, service, n - 1);
        if before.result is Err || n > before.entity.components.len() {
            before
        } else {
            let (component, after) = before.entity.components[n - 1].spec_run_service_mut(
                service,
                Scene { entity: before.entity.without(n - 1), ..before },
            );
            Scene { entity: after.entity.with(n - 1, component), ..after }
        }
    }
}

/// The scene after a mutating query was put to the entity: every component has been offered
/// the query, in composition order, and the entity's update snapshot has gone to every
/// client. If a component fails, the components behind it are not offered the query and no
/// snapshot goes out; what the components before it did stays done.
pub open spec fn spec_run_service_mut(scene: Scene, service: GameObjectServiceMut) -> Scene {
    let offered = spec_offer_service_mut(scene, service, scene.entity.components.len() as int);
    if offered.result is Err {
        offered
    } else {
        Scene {
            conn: offered.conn.broadcast(
                OutMessageView::ReplicaSerialization(offered.entity.spec_serialization()),
            ),
            result: offered.conn.attempt(),
            ..offered
        }
    }
}

/// The scene after the first `n` components of the entity have been delivered a game
/// message, each in turn. The component whose turn it is is taken out of the entity, handles
/// the message with the rest of the entity before it, and is put back in its place. Once a
/// component has failed, no further component is delivered the message.
pub open spec fn spec_deliver(scene: Scene, msg: ServerGM, n: int) -> Scene
    decreases n,
{
    if n <= 0 {
        scene
    } else {
        let before = spec_deliver(scene, msg, n - 1);
        if before.result is Err || n > before.entity.components.len() {
            before
        } else {
            let (component, after) = before.entity.components[n - 1].spec_on_game_message(
                msg,
                Scene { entity: before.entity.without(n - 1), ..before },
            );
            Scene { entity: after.entity.with(n - 1, component), ..after }
        }
    }
}

/// The scene after a game message was delivered to the entity: to every component, in
/// composition order, up to the first that fails.
pub open spec fn spec_on_game_message(scene: Scene, msg: ServerGM) -> Scene {
    spec_deliver(scene, msg, scene.entity.components.len() as int)
}

impl GameObjectView {
    /// The full snapshot: the entity's identity and the full snapshot of every component, in
    /// composition order.
    pub open spec fn spec_construction(self) -> ReplicaConstructionView {
        ReplicaConstructionView {
            network_id: self.network_id,
            object_id: self.object_id,
            lot: self.lot,
            name: REPLICA_NAME,
            time_since_created_on_server: 0,
            is_trigger: false,
            spawner_id: None,
            spawner_node_id: None,
            scale: None,
            components: Seq::new(
                self.components.len(),
                |i: int| self.components[i].spec_construction(),
            ),
        }
    }

    /// The update snapshot: the update snapshot of every component, in composition order.
    pub open spec fn spec_serialization(self) -> ReplicaSerializationView {
        ReplicaSerializationView {
            network_id: self.network_id,
            components: Seq::new(
                self.components.len(),
                |i: int| self.components[i].spec_serialization(),
            ),
        }
    }

    /// The saved data of the entity.
    pub open spec fn spec_xml(self) -> Seq<char> {
        XML_OPEN@ + spec_components_xml(self.components, self.components.len() as int)
            + XML_CLOSE@
    }

    /// A game message about this entity.
    pub open spec fn spec_make_sgm(self, message: ClientGM) -> ClientSGM {
        ClientSGM { subject_id: self.object_id, message }
    }

    /// The query after every component has seen it, in composition order.
    pub open spec fn spec_run_service(self, service: GameObjectService) -> GameObjectService {
        spec_offer_service(self.components, service, self.components.len() as int)
    }

    /// The entity with the component at position `i` taken out.
    pub open spec fn without(self, i: int) -> GameObjectView {
        GameObjectView { components: self.components.remove(i), ..self }
    }

    /// The entity with `component` put in at position `i`.
    pub open spec fn with(self, i: int, component: Component) -> GameObjectView {
        GameObjectView { components: self.components.insert(i, component), ..self }
    }

    /// The capability tags of the components, in composition order.
    pub open spec fn spec_tags(self) -> Seq<u32> {
        Seq::new(self.components.len(), |i: int| self.components[i].spec_tag())
    }

    /// Whether this is the entity `other`, in the same or another state: it has the same
    /// identifiers, template and name, and components of the same kinds in the same order.
    pub open spec fn same_identity(self, other: GameObjectView) -> bool {
        &&& self.network_id == other.network_id
        &&& self.object_id == other.object_id
        &&& self.lot == other.lot
        &&& self.name == other.name
        &&& self.spec_tags() == other.spec_tags()
    }
}

impl View for GameObject {
    type V = GameObjectView;

    closed spec fn view(&self) -> GameObjectView {
        GameObjectView {
            network_id: self.network_id,
            object_id: self.object_id,
            lot: self.lot,
            name: self.name@,
            components: self.components@,
        }
    }
}

impl GameObject {
    /// The entity that `new` builds, or the error it fails with.
    pub open spec fn spec_new(
        network_id: u16,
        object_id: ObjId,
        lot: Lot,
        config: &SpawnConfig,
        raw_comps: Seq<u32>,
    ) -> Res<GameObjectView> {
        match spec_create_components(spec_compose(raw_comps), config) {
            Ok(components) => Ok(
                GameObjectView {
                    network_id,
                    object_id,
                    lot,
                    name: spec_decimal(object_id as nat),
                    components,
                },
            ),
            Err(e) => Err(e),
        }
    }

    /// Builds an entity of the template `lot`, whose raw capability tags are `raw_comps`. The
    /// tags are put in composition order, each tag once, and patched by the override rules;
    /// each tag of the result that needs a component becomes one. The entity is named by its
    /// identifier, in decimal.
    ///
    /// Whatever the order of `raw_comps`, and however often it names a tag, the components of
    /// the entity follow each other as their tags do in the priority table, and no two are of
    /// the same kind.
    ///
    /// Fails if a tag of the capability list is neither known nor exempt. No entity exists
    /// then.
    pub fn new(
        network_id: u16,
        object_id: ObjId,
        lot: Lot,
        config: &SpawnConfig,
        raw_comps: &Vec<u32>,
    ) -> (r: Res<Self>)
        ensures
            match r {
                Ok(entity) => GameObject::spec_new(network_id, object_id, lot, config, raw_comps@)
                    == Ok::<GameObjectView, Error>(entity@),
                Err(e) => GameObject::spec_new(network_id, object_id, lot, config, raw_comps@)
                    == Err::<GameObjectView, Error>(e),
            },
            r is Ok ==> r->Ok_0@.spec_tags().no_duplicates(),
            r is Ok ==> forall|i: int, j: int|
                0 <= i < j < r->Ok_0@.spec_tags().len() ==> is_ranked(r->Ok_0@.spec_tags()[i])
                    && is_ranked(r->Ok_0@.spec_tags()[j]) && spec_rank(
                    #[trigger] r->Ok_0@.spec_tags()[i],
                ) < spec_rank(#[trigger] r->Ok_0@.spec_tags()[j]),
            r is Ok ==> forall|tag: u32| #[trigger]
                r->Ok_0@.spec_tags().contains(tag) <==> spec_listed(raw_comps@, tag)
                    && !spec_needs_no_component(tag),
    {
        proof {
            if GameObject::spec_new(network_id, object_id, lot, config, raw_comps@) is Ok {
                lemma_new_entity_follows_capability_list(
                    network_id,
                    object_id,
                    lot,
                    config,
                    raw_comps@,
                );
            }
        }
        let final_comps = compose(raw_comps);
        match Self::create_components(&final_comps, config) {
            Ok(components) => Ok(
                Self { network_id, object_id, lot, name: decimal(object_id), components },
            ),
            Err(e) => Err(e),
        }
    }

    /// The identity of the entity.
    pub fn object_id(&self) -> (id: ObjId)
        ensures
            id == self@.object_id,
    {
        self.object_id
    }

    /// The short identifier under which snapshots of the entity travel.
    pub fn network_id(&self) -> (id: u16)
        ensures
            id == self@.network_id,
    {
        self.network_id
    }

    /// The template the entity was built from.
    pub fn lot(&self) -> (lot: Lot)
        ensures
            lot == self@.lot,
    {
        self.lot
    }

    /// The display name.
    pub fn name(&self) -> (name: &String)
        ensures
            name@ == self@.name,
    {
        &self.name
    }

    /// How many components the entity has.
    pub fn component_count(&self) -> (n: usize)
        ensures
            n == self@.components.len(),
    {
        self.components.len()
    }

    /// The component at position `i` of the composition order.
    pub fn component(&self, i: usize) -> (c: Option<Component>)
        ensures
            c == if i < self@.components.len() {
                Some(self@.components[i as int])
            } else {
                None
            },
    {
        if i < self.components.len() {
            Some(self.components[i])
        } else {
            None
        }
    }

    /// The full snapshot of the entity: every component's full snapshot, in composition
    /// order. It depends on the entity's current state alone.
    pub fn make_construction(&self) -> (r: ReplicaConstruction)
        ensures
            r@ == self@.spec_construction(),
    {
        let mut comp_constructions: Vec<ComponentConstruction> = Vec::new();
        let mut i: usize = 0;
        while i < self.components.len()
            invariant
                i <= self.components@.len(),
                comp_constructions@.len() == i,
                forall|j: int|
                    0 <= j < i ==> comp_constructions@[j]
                        == self.components@[j].spec_construction(),
            decreases self.components@.len() - i,
        {
            comp_constructions.push(self.components[i].make_construction());
            i += 1;
        }
        let r = ReplicaConstruction {
            network_id: self.network_id,
            object_id: self.object_id,
            lot: self.lot,
            name: REPLICA_NAME,
            time_since_created_on_server: 0,
            is_trigger: false,
            spawner_id: None,
            spawner_node_id: None,
            scale: None,
            components: comp_constructions,
        };
        assert(r@.components =~= self@.spec_construction().components);
        r
    }

    /// The update snapshot of the entity: every component's update snapshot, in composition
    /// order. It depends on the entity's current state alone.
    pub fn make_serialization(&self) -> (r: ReplicaSerialization)
        ensures
            r@ == self@.spec_serialization(),
    {
        let mut comp_serializations: Vec<ComponentSerialization> = Vec::new();
        let mut i: usize = 0;
        while i < self.components.len()
            invariant
                i <= self.components@.len(),
                comp_serializations@.len() == i,
                forall|j: int|
                    0 <= j < i ==> comp_serializations@[j]
                        == self.components@[j].spec_serialization(),
            decreases self.components@.len() - i,
        {
            comp_serializations.push(self.components[i].make_serialization());
            i += 1;
        }
        let r = ReplicaSerialization {
            network_id: self.network_id,
            components: comp_serializations,
        };
        assert(r@.components =~= self@.spec_serialization().components);
        r
    }

    /// Appends the saved data of the entity to `writer`.
    pub fn write_xml(&self, writer: &mut String)
        ensures
            final(writer)@ == old(writer)@ + self@.spec_xml(),
    {
        writer.append(XML_OPEN);
        let mut i: usize = 0;
        while i < self.components.len()
            invariant
                i <= self.components@.len(),
                writer@ == old(writer)@ + XML_OPEN@ + spec_components_xml(
                    self.components@,
                    i as int,
                ),
            decreases self.components@.len() - i,
        {
            self.components[i].write_xml(writer);
            assert(writer@ =~= old(writer)@ + XML_OPEN@ + spec_components_xml(
                self.components@,
                i as int + 1,
            ));
            i += 1;
        }
        writer.append(XML_CLOSE);
        assert(writer@ =~= old(writer)@ + self@.spec_xml());
    }

    /// A game message about this entity.
    pub fn make_sgm(&self, message: ClientGM) -> (sgm: ClientSGM)
        ensures
            sgm == self@.spec_make_sgm(message),
    {
        ClientSGM { subject_id: self.object_id, message }
    }

    /// Puts a reading query to every component, in composition order. A component that knows
    /// the query's kind writes its answer into the query; where several do, the last one's
    /// answer stays.
    pub fn run_service(&self, service: &mut GameObjectService)
        ensures
            *final(service) == self@.spec_run_service(*old(service)),
    {
        let mut i: usize = 0;
        while i < self.components.len()
            invariant
                i <= self.components@.len(),
                *service == spec_offer_service(self.components@, *old(service), i as int),
            decreases self.components@.len() - i,
        {
            self.components[i].run_service(service);
            i += 1;
        }
    }
    /// Takes the component at position `i` out of the entity.
    fn detach(&mut self, i: usize) -> (component: Component)
        requires
            i < old(self)@.components.len(),
        ensures
            component == old(self)@.components[i as int],
            final(self)@ == old(self)@.without(i as int),
    {
        self.components.remove(i)
    }

    /// Puts `component` into the entity at position `i`.
    fn reattach(&mut self, i: usize, component: Component)
        requires
            i <= old(self)@.components.len(),
        ensures
            final(self)@ == old(self)@.with(i as int, component),
    {
        self.components.insert(i, component);
    }

    /// Delivers a game message to every component, in composition order.
    ///
    /// The component whose turn it is is taken out of the entity, so that it can work on
    /// itself and on the rest of the entity at once, and is put back in its place afterwards,
    /// whether it failed or not. If a component fails, the components behind it do not get
    /// the message, and the failure is returned. Nothing is undone.
    ///
    /// A game message changes the registry and the connection; the entity itself is
    /// afterwards as it was before.
    pub fn on_game_message(&mut self, msg: &ServerGM, state: &mut State, conn: &mut Connection) -> (r:
        Res<()>)
        requires
            old(state)@.wf(),
        ensures
            final(state)@.follows(old(state)@),
            (Scene { entity: final(self)@, state: final(state)@, conn: final(conn)@, result: r })
                == spec_on_game_message(
                Scene { entity: old(self)@, state: old(state)@, conn: old(conn)@, result: Ok(()) },
                *msg,
            ),
            final(self)@ == old(self)@,
    {
        let ghost start = Scene {
            entity: self@,
            state: state@,
            conn: conn@,
            result: Ok(()),
        };
        let n = self.components.len();
        let mut i: usize = 0;
        while i < n
            invariant
                i <= n,
                n == start.entity.components.len(),
                start == (Scene {
                    entity: old(self)@,
                    state: old(state)@,
                    conn: old(conn)@,
                    result: Ok(()),
                }),
                state@.follows(start.state),
                (Scene { entity: self@, state: state@, conn: conn@, result: Ok(()) })
                    == spec_deliver(start, *msg, i as int),
                self@ == start.entity,
            decreases n - i,
        {
            let mut comp = self.detach(i);
            let ghost rest = Scene { entity: self@, state: state@, conn: conn@, result: Ok(()) };
            let ghost detached = comp;
            proof {
                lemma_game_message_leaves_entity(detached, *msg, rest);
            }
            let res = comp.on_game_message(msg, self, state, conn);
            self.reattach(i, comp);
            proof {
                assert(self@.components =~= start.entity.components);
                assert(spec_deliver(start, *msg, i as int + 1) == Scene {
                    entity: self@,
                    state: state@,
                    conn: conn@,
                    result: res,
                });
            }
            if res.is_err() {
                proof {
                    lemma_deliver_stops_at_failure(start, *msg, i as int + 1, n as int);
                }
                return res;
            }
            assert(res == Ok::<(), Error>(())) by {
                let unit = res->Ok_0;
                assert(unit == ());
            }
            i += 1;
        }
        Ok(())
    }

    /// Puts a mutating query to every component, in composition order, and then sends the
    /// entity's update snapshot to every client.
    ///
    /// The component whose turn it is is taken out of the entity and put back in its place
    /// afterwards, whether it failed or not. If a component fails, the components behind it
    /// are not offered the query, no snapshot is sent, and the failure is returned. Nothing
    /// is undone.
    pub fn run_service_mut(
        &mut self,
        service: &GameObjectServiceMut,
        state: &mut State,
        conn: &mut Connection,
    ) -> (r: Res<()>)
        requires
            old(state)@.wf(),
        ensures
            final(state)@.follows(old(state)@),
            (Scene { entity: final(self)@, state: final(state)@, conn: final(conn)@, result: r })
                == spec_run_service_mut(
                Scene { entity: old(self)@, state: old(state)@, conn: old(conn)@, result: Ok(()) },
                *service,
            ),
            final(self)@.same_identity(old(self)@),
    {
        let ghost start = Scene {
            entity: self@,
            state: state@,
            conn: conn@,
            result: Ok(()),
        };
        let n = self.components.len();
        let mut i: usize = 0;
        while i < n
            invariant
                i <= n,
                n == start.entity.components.len(),
                start == (Scene {
                    entity: old(self)@,
                    state: old(state)@,
                    conn: old(conn)@,
                    result: Ok(()),
                }),
                state@.follows(start.state),
                (Scene { entity: self@, state: state@, conn: conn@, result: Ok(()) })
                    == spec_offer_service_mut(start, *service, i as int),
                self@.components.len() == n,
                self@.same_identity(start.entity),
            decreases n - i,
        {
            let ghost before = Scene { entity: self@, state: state@, conn: conn@, result: Ok(()) };
            let mut comp = self.detach(i);
            let ghost rest = Scene { entity: self@, state: state@, conn: conn@, result: Ok(()) };
            let ghost detached = comp;
            proof {
                lemma_service_mut_keeps_shape(detached, *service, rest);
            }
            let res = comp.run_service_mut(service, self, state, conn);
            let ghost handled = self@;
            self.reattach(i, comp);
            proof {
                lemma_reattached_tags(before.entity, i as int, handled, comp);
                assert(spec_offer_service_mut(start, *service, i as int + 1) == Scene {
                    entity: self@,
                    state: state@,
                    conn: conn@,
                    result: res,
                });
            }
            if res.is_err() {
                proof {
                    lemma_offer_stops_at_failure(start, *service, i as int + 1, n as int);
                }
                return res;
            }
            i += 1;
        }
        let ser = self.make_serialization();
        conn.broadcast(OutMessage::ReplicaSerialization(ser))
    }
}

/// Taking a component out of an entity and putting a component of the same kind back in its
/// place leaves the capability tags of the entity as they were, provided the rest of the
/// entity kept its tags meanwhile.
pub proof fn lemma_reattached_tags(
    entity: GameObjectView,
    i: int,
    rest: GameObjectView,
    component: Component,
)
    requires
        0 <= i < entity.components.len(),
        component.spec_tag() == entity.components[i].spec_tag(),
        rest.components.len() == entity.components.len() - 1,
        rest.spec_tags() =~= entity.without(i).spec_tags(),
    ensures
        rest.with(i, component).components.len() == entity.components.len(),
        rest.with(i, component).spec_tags() =~= entity.spec_tags(),
{
    let after = rest.with(i, component);
    assert forall|j: int| 0 <= j < after.components.len() implies after.spec_tags()[j]
        == entity.spec_tags()[j] by {
        if j < i {
            assert(after.components[j] == rest.components[j]);
            assert(rest.spec_tags()[j] == entity.without(i).spec_tags()[j]);
            assert(entity.without(i).components[j] == entity.components[j]);
        } else if j > i {
            assert(after.components[j] == rest.components[j - 1]);
            assert(rest.spec_tags()[j - 1] == entity.without(i).spec_tags()[j - 1]);
            assert(entity.without(i).components[j - 1] == entity.components[j]);
        }
    }
}

/// A component that is offered a mutating query leaves the rest of its entity alone, and
/// stays of its own kind.
pub proof fn lemma_service_mut_keeps_shape(
    component: Component,
    service: GameObjectServiceMut,
    scene: Scene,
)
    ensures
        component.spec_run_service_mut(service, scene).0.spec_tag() == component.spec_tag(),
        component.spec_run_service_mut(service, scene).1.entity == scene.entity,
{
}

/// Offering a mutating query to the components of an entity leaves the entity with the
/// components it had, each of its kind and in its place.
pub proof fn lemma_offer_keeps_shape(scene: Scene, service: GameObjectServiceMut, n: int)
    requires
        0 <= n <= scene.entity.components.len(),
    ensures
        spec_offer_service_mut(scene, service, n).entity.components.len()
            == scene.entity.components.len(),
        spec_offer_service_mut(scene, service, n).entity.same_identity(scene.entity),
    decreases n,
{
    if n > 0 {
        lemma_offer_keeps_shape(scene, service, n - 1);
        let before = spec_offer_service_mut(scene, service, n - 1);
        if before.result is Ok {
            let rest = Scene { entity: before.entity.without(n - 1), ..before };
            let component = before.entity.components[n - 1];
            lemma_service_mut_keeps_shape(component, service, rest);
            let (handled, after) = component.spec_run_service_mut(service, rest);
            let now = after.entity.with(n - 1, handled);
            assert(now.components =~= before.entity.components.update(n - 1, handled));
            assert(before.entity.spec_tags()[n - 1] == handled.spec_tag());
            assert forall|j: int| 0 <= j < now.components.len() implies now.spec_tags()[j]
                == scene.entity.spec_tags()[j] by {
                assert(before.entity.spec_tags()[j] == scene.entity.spec_tags()[j]);
            }
            assert(now.spec_tags() =~= scene.entity.spec_tags());
        }
    }
}

/// Once a component has failed at a game message, the components behind it change nothing:
/// they never get the message, and the failure is what comes back.
pub proof fn lemma_deliver_stops_at_failure(scene: Scene, msg: ServerGM, k: int, n: int)
    requires
        0 <= k <= n,
        spec_deliver(scene, msg, k).result is Err,
    ensures
        spec_deliver(scene, msg, n) == spec_deliver(scene, msg, k),
    decreases n - k,
{
    if k < n {
        lemma_deliver_stops_at_failure(scene, msg, k, n - 1);
    }
}

/// Once a component has failed at a mutating query, the components behind it change
/// nothing: they are never offered the query, and the failure is what comes back.
pub proof fn lemma_offer_stops_at_failure(
    scene: Scene,
    service: GameObjectServiceMut,
    k: int,
    n: int,
)
    requires
        0 <= k <= n,
        spec_offer_service_mut(scene, service, k).result is Err,
    ensures
        spec_offer_service_mut(scene, service, n) == spec_offer_service_mut(scene, service, k),
    decreases n - k,
{
    if k < n {
        lemma_offer_stops_at_failure(scene, service, k, n - 1);
    }
}

/// Offering a mutating query to the first `n` components changes no component behind them,
/// and changes each of the first `n` only in its own turn.
pub proof fn lemma_offer_changes_one_at_a_time(
    scene: Scene,
    service: GameObjectServiceMut,
    n: int,
    j: int,
)
    requires
        0 <= n <= scene.entity.components.len(),
        0 <= j < scene.entity.components.len(),
    ensures
        spec_offer_service_mut(scene, service, n).entity.components.len()
            == scene.entity.components.len(),
        j >= n ==> spec_offer_service_mut(scene, service, n).entity.components[j]
            == scene.entity.components[j],
        j < n ==> spec_offer_service_mut(scene, service, n).entity.components[j]
            == spec_offer_service_mut(scene, service, j + 1).entity.components[j],
    decreases n,
{
    lemma_offer_keeps_shape(scene, service, n);
    if n > 0 {
        lemma_offer_changes_one_at_a_time(scene, service, n - 1, j);
        lemma_offer_keeps_shape(scene, service, n - 1);
        let before = spec_offer_service_mut(scene, service, n - 1);
        if before.result is Ok {
            let rest = Scene { entity: before.entity.without(n - 1), ..before };
            let component = before.entity.components[n - 1];
            lemma_service_mut_keeps_shape(component, service, rest);
            let (handled, after) = component.spec_run_service_mut(service, rest);
            assert(after.entity.with(n - 1, handled).components =~= before.entity.components.update(
                n - 1,
                handled,
            ));
        }
    }
}

/// If the component at position `k` is the first to fail at a mutating query, then the failure
/// is what the query returns, nothing is sent after it, no component behind position `k` is
/// offered the query, and every component before position `k` stays as its own turn left it.
pub proof fn lemma_failed_query_stops_and_is_not_undone(
    scene: Scene,
    service: GameObjectServiceMut,
    k: int,
    j: int,
)
    requires
        0 <= k < scene.entity.components.len(),
        0 <= j < scene.entity.components.len(),
        spec_offer_service_mut(scene, service, k).result is Ok,
        spec_offer_service_mut(scene, service, k + 1).result is Err,
    ensures
        spec_run_service_mut(scene, service) == spec_offer_service_mut(scene, service, k + 1),
        spec_run_service_mut(scene, service).result is Err,
        j > k ==> spec_run_service_mut(scene, service).entity.components[j]
            == scene.entity.components[j],
        j < k ==> spec_run_service_mut(scene, service).entity.components[j]
            == spec_offer_service_mut(scene, service, j + 1).entity.components[j],
{
    lemma_offer_stops_at_failure(scene, service, k + 1, scene.entity.components.len() as int);
    lemma_offer_changes_one_at_a_time(scene, service, k + 1, j);
}

/// A component that is delivered a game message leaves the rest of its entity and itself as
/// they were: what a game message changes is the registry and the connection.
pub proof fn lemma_game_message_leaves_entity(component: Component, msg: ServerGM, scene: Scene)
    ensures
        component.spec_on_game_message(msg, scene).0 == component,
        component.spec_on_game_message(msg, scene).1.entity == scene.entity,
{
    match component {
        Component::Character(_) => {
            match msg {
                ServerGM::ParseChatMessage(x) => {
                    crate::commands::lemma_chat_command_leaves_sender(x.string@, scene);
                },
                _ => {},
            }
        },
        _ => {},
    }
}

/// Delivering a game message to the first `n` components leaves the entity as it was.
pub proof fn lemma_deliver_leaves_entity(scene: Scene, msg: ServerGM, n: int)
    requires
        0 <= n <= scene.entity.components.len(),
    ensures
        spec_deliver(scene, msg, n).entity == scene.entity,
    decreases n,
{
    if n > 0 {
        lemma_deliver_leaves_entity(scene, msg, n - 1);
        let before = spec_deliver(scene, msg, n - 1);
        if before.result is Ok {
            let rest = Scene { entity: before.entity.without(n - 1), ..before };
            let component = before.entity.components[n - 1];
            lemma_game_message_leaves_entity(component, msg, rest);
            let (handled, after) = component.spec_on_game_message(msg, rest);
            assert(after.entity.with(n - 1, handled).components =~= before.entity.components);
        }
    }
}

/// If the component at position `k` is the first to fail at a game message, then the failure
/// is what the delivery returns, and the registry and the connection are left as that
/// component's turn left them: no component behind position `k` gets the message, and
/// nothing that was done before the failure is undone.
pub proof fn lemma_failed_delivery_stops_and_is_not_undone(scene: Scene, msg: ServerGM, k: int)
    requires
        0 <= k < scene.entity.components.len(),
        spec_deliver(scene, msg, k).result is Ok,
        spec_deliver(scene, msg, k + 1).result is Err,
    ensures
        spec_on_game_message(scene, msg) == spec_deliver(scene, msg, k + 1),
        spec_on_game_message(scene, msg).result is Err,
        spec_on_game_message(scene, msg).entity == scene.entity,
{
    lemma_deliver_stops_at_failure(scene, msg, k + 1, scene.entity.components.len() as int);
    lemma_deliver_leaves_entity(scene, msg, k + 1);
}

/// The snapshots of an entity list its components in composition order: one snapshot per
/// component, each of the kind of the component at its position.
pub proof fn lemma_snapshots_follow_composition_order(entity: GameObjectView, i: int)
    requires
        0 <= i < entity.components.len(),
    ensures
        entity.spec_construction().components.len() == entity.components.len(),
        entity.spec_serialization().components.len() == entity.components.len(),
        entity.spec_construction().components[i].spec_tag() == entity.spec_tags()[i],
        entity.spec_serialization().components[i].spec_tag() == entity.spec_tags()[i],
        entity.spec_construction().components[i] == entity.components[i].spec_construction(),
        entity.spec_serialization().components[i] == entity.components[i].spec_serialization(),
{
}

/// The components of a new entity are those of its capability list, in the order of the
/// list, with the tags left out that need no component. So, whatever the raw list: no two
/// components are of the same kind, the components follow each other as their tags do in the
/// priority table, and the entity has a component of a kind exactly if the override rules
/// list its tag and the tag needs a component.
pub proof fn lemma_new_entity_follows_capability_list(
    network_id: u16,
    object_id: ObjId,
    lot: Lot,
    config: &SpawnConfig,
    raw_comps: Seq<u32>,
)
    requires
        GameObject::spec_new(network_id, object_id, lot, config, raw_comps) is Ok,
    ensures
        ({
            let tags = GameObject::spec_new(
                network_id,
                object_id,
                lot,
                config,
                raw_comps,
            )->Ok_0.spec_tags();
            &&& tags == self::composition::spec_component_tags(
                spec_compose(raw_comps),
                spec_compose(raw_comps).len() as int,
            )
            &&& tags.no_duplicates()
            &&& forall|i: int, j: int|
                0 <= i < j < tags.len() ==> is_ranked(tags[i]) && is_ranked(tags[j]) && spec_rank(
                    #[trigger] tags[i],
                ) < spec_rank(#[trigger] tags[j])
            &&& forall|tag: u32| #[trigger]
                tags.contains(tag) <==> spec_listed(raw_comps, tag) && !spec_needs_no_component(
                    tag,
                )
        }),
{
    let comps = spec_compose(raw_comps);
    let n = comps.len() as int;
    self::composition::lemma_create(comps, config, n);
    self::composition::lemma_compose(raw_comps);
    self::composition::lemma_component_tags_keep_order(comps, n);
    self::composition::lemma_component_tags(comps, n);
    assert(comps.take(n) =~= comps);
    let entity = GameObject::spec_new(network_id, object_id, lot, config, raw_comps)->Ok_0;
    let tags = entity.spec_tags();
    assert(tags =~= self::composition::spec_tags_of(entity.components));
    self::composition::lemma_prioritized_has_no_duplicates(tags);
    assert forall|i: int| 0 <= i < tags.len() implies is_ranked(#[trigger] tags[i]) by {
        assert(tags[i] == entity.components[i].spec_tag());
        self::composition::lemma_rank_is_position(tags[i]);
    }
    assert forall|i: int, j: int| 0 <= i < j < tags.len() implies is_ranked(tags[i]) && is_ranked(
        tags[j],
    ) && spec_rank(#[trigger] tags[i]) < spec_rank(#[trigger] tags[j]) by {
        assert(self::composition::spec_key(tags[i]) < self::composition::spec_key(tags[j]));
    }
}

/// Raw lists that name the same tags build the same entity, or fail with the same error,
/// in whatever order and however often they name the tags.
pub proof fn lemma_new_entity_ignores_input_order(
    network_id: u16,
    object_id: ObjId,
    lot: Lot,
    config: &SpawnConfig,
    raw1: Seq<u32>,
    raw2: Seq<u32>,
)
    requires
        forall|tag: u32| raw1.contains(tag) <==> raw2.contains(tag),
    ensures
        GameObject::spec_new(network_id, object_id, lot, config, raw1) == GameObject::spec_new(
            network_id,
            object_id,
            lot,
            config,
            raw2,
        ),
{
    self::composition::lemma_compose_ignores_input_order(raw1, raw2);
}

/// Snapshots depend on the state of the entity alone: entities with the same identity and
/// the same components have the same snapshots, whenever these are taken. The update
/// snapshot does not even depend on the object identifier, the template or the name.
pub proof fn lemma_snapshots_depend_on_state_alone(a: GameObjectView, b: GameObjectView)
    requires
        a.network_id == b.network_id,
        a.components == b.components,
    ensures
        a.spec_serialization() == b.spec_serialization(),
        a.object_id == b.object_id && a.lot == b.lot ==> a.spec_construction()
            == b.spec_construction(),
{
}

} // verus!
