//! The world registry: the live entities, the identifier counters and the sessions.
use std::collections::HashMap;
use vstd::prelude::*;
use crate::connection::{Connection, ConnectionView};
use crate::error::{Error, Res};
use crate::game_object::{GameObject, GameObjectView};
use crate::ids::{IdAllocator, Lot, ObjId, Partition};
use crate::listeners::chara::{
    on_char_create_reply, on_char_del_reply, on_char_list_reply, rows_view,
    spec_on_char_create_reply, spec_on_char_del_reply, spec_on_char_list_reply,
};
use crate::listeners::{
    done, force_disconnect, on_validated_msg, spec_done, spec_force_disconnect,
    spec_on_validated_msg, Turn,
};
use crate::math::SpawnConfig;
use crate::messages::{
    ClientValidation, DisconnectNotify, IncMessage, Pending, PendingView, Reply, TransportStep,
    Verification, WorldMessage,
};
use crate::templates::{spec_capabilities_for, RegistryRow, TemplateData};

verus! {

/// The template of a player's character.
pub const PLAYER_LOT: Lot = 1;

/// What is known about a validated session.
pub struct AccountInfo {
    username: String,
    active_character_id: ObjId,
}

/// A session, as a mathematical value.
pub struct AccountInfoView {
    /// The account that the session was validated for.
    pub username: Seq<char>,
    /// The entity that the session plays, or 0 while it plays none.
    pub active_character_id: ObjId,
}

impl AccountInfoView {
    /// Whether the session plays an entity.
    pub open spec fn in_game(self) -> bool {
        self.active_character_id != 0
    }
}

impl View for AccountInfo {
    type V = AccountInfoView;

    closed spec fn view(&self) -> AccountInfoView {
        AccountInfoView {
            username: self.username@,
            active_character_id: self.active_character_id,
        }
    }
}

impl AccountInfo {
    /// A session of the account `username` that plays no entity yet.
    pub fn new(username: String) -> (info: AccountInfo)
        ensures
            info@ == (AccountInfoView { username: username@, active_character_id: 0 }),
    {
        AccountInfo { username, active_character_id: 0 }
    }

    /// The account that the session was validated for.
    pub fn username(&self) -> (name: &String)
        ensures
            name@ == self@.username,
    {
        &self.username
    }

    /// The entity that the session plays, or 0 while it plays none.
    pub fn active_character_id(&self) -> (id: ObjId)
        ensures
            id == self@.active_character_id,
    {
        self.active_character_id
    }

    /// Binds the session to the entity `id`.
    fn set_active_character_id(&mut self, id: ObjId)
        ensures
            final(self)@ == (AccountInfoView { active_character_id: id, ..old(self)@ }),
    {
        self.active_character_id = id;
    }
}

/// How far a connection has come.
#[derive(Clone, Copy, Debug, PartialEq, Eq, Structural)]
pub enum SessionState {
    /// The peer has not proved who it is. Only credentials are accepted from it.
    Unauthenticated,
    /// The peer's account is known, but it plays no entity yet.
    Validated,
    /// The peer plays an entity.
    InGame,
}

/// Something worth a line in the server's log. The core does not print: it keeps these for
/// the surrounding program to report.
#[derive(Clone, Copy, Debug, PartialEq, Eq, Structural)]
pub enum Diagnostic {
    /// An operation named an entity that does not exist. Nothing was done.
    MissingGameObject(ObjId),
    /// A restricted message came from a peer that is not validated.
    UnvalidatedClient(u64),
    /// A restricted message that needs a bound entity came from a session that has none.
    NotInGame(u64),
    /// A message of a kind that the server has no handler for was dropped.
    UnrecognizedPacket,
    /// A message that is neither the transport's nor the world's was dropped.
    Unsolicited,
    /// The transport reported a new connection.
    NewIncomingConnection,
    /// The credential service could not be asked.
    VerificationUnavailable,
    /// The credential service answered with an unexpected status code.
    VerificationError(i32),
    /// The credential service rejected a session key.
    InvalidSessionKey,
    /// A reply came that answers no request of this connection.
    UnexpectedReply,
    /// Storage could not save a character.
    CharacterNotSaved,
    /// Storage could not load the characters of an account. The client was disconnected.
    CharactersNotLoaded,
    /// Storage could not delete the character with this key.
    CharacterNotDeleted(i32),
}

/// The world registry.
pub struct State {
    validated: HashMap<u64, AccountInfo>,
    game_objects: HashMap<ObjId, GameObject>,
    /// The identifiers under which entities were filed by a spawn, oldest first.
    spawned: Vec<ObjId>,
    ids: IdAllocator,
    templates: TemplateData,
    log: Vec<Diagnostic>,
}

/// The world registry, as a mathematical value.
pub struct StateView {
    /// The validated sessions, by peer.
    pub validated: Map<u64, AccountInfoView>,
    /// The live entities, by object identifier.
    pub game_objects: Map<ObjId, GameObjectView>,
    /// The identifiers under which entities were filed by a spawn, oldest first.
    pub spawned: Seq<ObjId>,
    /// The identifier counters.
    pub ids: IdAllocator,
    /// The template data.
    pub templates: Seq<RegistryRow>,
    /// What has been noted for the log, oldest first.
    pub log: Seq<Diagnostic>,
}

impl StateView {
    /// What holds of the registry at all times:
    ///
    /// - the counters lie inside their partitions;
    /// - every live entity is filed under its own object identifier, which the counters have
    ///   passed, so that the identifier that is issued next is one that no live entity has;
    /// - the spawn record holds the identifier of every live entity, holds none twice, and
    ///   holds only identifiers that the counters have passed.
    pub open spec fn wf(self) -> bool {
        &&& self.ids.wf()
        &&& forall|obj_id: ObjId| #[trigger]
            self.game_objects.contains_key(obj_id) ==> {
                &&& self.ids.issued(obj_id)
                &&& self.game_objects[obj_id].object_id == obj_id
                &&& self.spawned.contains(obj_id)
            }
        &&& self.spawned.no_duplicates()
        &&& forall|i: int| 0 <= i < self.spawned.len() ==> self.ids.issued(#[trigger] self.spawned[i])
    }

    /// Whether this registry can be a later state of the registry `earlier`: it is well
    /// formed, no object counter has gone back, and the spawn record has only grown.
    pub open spec fn follows(self, earlier: StateView) -> bool {
        &&& self.wf()
        &&& self.ids.covers(earlier.ids)
        &&& earlier.spawned.len() <= self.spawned.len()
        &&& forall|i: int|
            0 <= i < earlier.spawned.len() ==> #[trigger] self.spawned[i] == earlier.spawned[i]
    }

    /// How far the connection of `peer` has come.
    pub open spec fn session_state(self, peer: u64) -> SessionState {
        if !self.validated.contains_key(peer) {
            SessionState::Unauthenticated
        } else if self.validated[peer].in_game() {
            SessionState::InGame
        } else {
            SessionState::Validated
        }
    }

    /// The registry with one more line for the log.
    pub open spec fn logged(self, diagnostic: Diagnostic) -> StateView {
        StateView { log: self.log.push(diagnostic), ..self }
    }

    /// The registry without the entity `obj_id`.
    pub open spec fn without_game_object(self, obj_id: ObjId) -> StateView {
        StateView { game_objects: self.game_objects.remove(obj_id), ..self }
    }

    /// The registry with `entity` filed under `obj_id`.
    pub open spec fn with_game_object(self, obj_id: ObjId, entity: GameObjectView) -> StateView {
        StateView { game_objects: self.game_objects.insert(obj_id, entity), ..self }
    }

    /// The registry without the session of `peer`.
    pub open spec fn without_session(self, peer: u64) -> StateView {
        StateView { validated: self.validated.remove(peer), ..self }
    }

    /// The registry with `session` filed under `peer`.
    pub open spec fn with_session(self, peer: u64, session: AccountInfoView) -> StateView {
        StateView { validated: self.validated.insert(peer, session), ..self }
    }

    /// Whether a spawn into `partition` finds the identifiers it needs.
    pub open spec fn can_spawn(self, partition: Partition) -> bool {
        self.ids.spec_network_left() > 0 && self.ids.spec_left(partition) > 0
    }

    /// The registry after a spawn of the template `lot`, and the identifier of the new entity
    /// or the error.
    ///
    /// Where an identifier is missing, nothing changes. Otherwise a network identifier and an
    /// object identifier are used up, whether or not the entity can then be built.
    pub open spec fn spec_spawn_internal(
        self,
        is_persistent: bool,
        lot: Lot,
        config: &SpawnConfig,
    ) -> (StateView, Res<ObjId>) {
        let partition = if is_persistent {
            Partition::Persistent
        } else {
            Partition::Spawned
        };
        if !self.can_spawn(partition) {
            (self, Err(Error::IdSpaceExhausted))
        } else {
            let network_id = (self.ids.current_network_id + 1) as u16;
            let obj_id = self.ids.spec_next(partition);
            let ids = IdAllocator {
                current_network_id: network_id,
                ..self.ids.spec_advance(partition)
            };
            match GameObject::spec_new(
                network_id,
                obj_id,
                lot,
                config,
                spec_capabilities_for(self.templates, lot),
            ) {
                Ok(entity) => (
                    StateView {
                        ids,
                        game_objects: self.game_objects.insert(obj_id, entity),
                        spawned: self.spawned.push(obj_id),
                        ..self
                    },
                    Ok(obj_id),
                ),
                Err(e) => (StateView { ids, ..self }, Err(e)),
            }
        }
    }

    /// The registry after a spawn of an entity that lives as long as the process.
    pub open spec fn spec_spawn(self, lot: Lot, config: &SpawnConfig) -> (StateView, Res<ObjId>) {
        self.spec_spawn_internal(false, lot, config)
    }

    /// The registry after a spawn of a player's character.
    pub open spec fn spec_spawn_player(self) -> (StateView, Res<ObjId>) {
        self.spec_spawn_internal(true, PLAYER_LOT, &SpawnConfig::spec_empty())
    }

    /// The live entities among the first `n` that were spawned, oldest first.
    pub open spec fn spec_live(self, n: int) -> Seq<GameObjectView>
        decreases n,
    {
        if n <= 0 {
            Seq::empty()
        } else if self.game_objects.contains_key(self.spawned[n - 1]) {
            self.spec_live(n - 1).push(self.game_objects[self.spawned[n - 1]])
        } else {
            self.spec_live(n - 1)
        }
    }

    /// The live entities that were spawned, oldest first.
    pub open spec fn spec_all_game_objects(self) -> Seq<GameObjectView> {
        self.spec_live(self.spawned.len() as int)
    }
}

impl View for State {
    type V = StateView;

    closed spec fn view(&self) -> StateView {
        StateView {
            validated: self.validated@.map_values(|a: AccountInfo| a@),
            game_objects: self.game_objects@.map_values(|g: GameObject| g@),
            spawned: self.spawned@,
            ids: self.ids,
            templates: self.templates@,
            log: self.log@,
        }
    }
}

impl State {
    /// A registry without entities or sessions. `templates` is the template data;
    /// `persistent_high_water` is the largest persistent counter value that storage holds, so
    /// that no persistent identifier of an earlier run is issued again.
    pub fn new(templates: TemplateData, persistent_high_water: u64) -> (state: State)
        ensures
            state@.wf(),
            state@ == (StateView {
                validated: Map::empty(),
                game_objects: Map::empty(),
                spawned: Seq::empty(),
                ids: state@.ids,
                templates: templates@,
                log: Seq::empty(),
            }),
            state@.ids.current_spawned_id == crate::ids::BITS_SPAWNED,
            state@.ids.current_network_id == 0,
            state@.ids.current_persistent_id == crate::ids::BITS_PERSISTENT
                + if persistent_high_water <= crate::ids::PERSISTENT_CAPACITY {
                persistent_high_water
            } else {
                crate::ids::PERSISTENT_CAPACITY
            },
    {
        let state = State {
            validated: HashMap::new(),
            game_objects: HashMap::new(),
            spawned: Vec::new(),
            ids: IdAllocator::new(persistent_high_water),
            templates,
            log: Vec::new(),
        };
        assert(state@.validated =~= Map::empty());
        assert(state@.game_objects =~= Map::empty());
        state
    }

    /// Whether the counters lie inside their partitions. In a registry that `new` has made
    /// and that only the functions of this library have changed, they do.
    pub fn is_well_formed(&self) -> (ok: bool)
        ensures
            ok == self@.ids.wf(),
            self@.wf() ==> ok,
    {
        self.ids.is_well_formed()
    }

    /// Notes `diagnostic` for the log.
    pub fn note(&mut self, diagnostic: Diagnostic)
        ensures
            final(self)@ == old(self)@.logged(diagnostic),
    {
        self.log.push(diagnostic);
    }

    /// Hands over what has been noted for the log, oldest first, and leaves the log empty.
    pub fn take_diagnostics(&mut self) -> (noted: Vec<Diagnostic>)
        ensures
            noted@ == old(self)@.log,
            final(self)@ == (StateView { log: Seq::empty(), ..old(self)@ }),
    {
        let mut noted: Vec<Diagnostic> = Vec::new();
        std::mem::swap(&mut noted, &mut self.log);
        noted
    }

    /// How many spawned identifiers are still unused.
    pub fn spawned_ids_left(&self) -> (n: u64)
        requires
            self@.wf(),
        ensures
            n == self@.ids.spec_spawned_left(),
    {
        self.ids.spawned_left()
    }

    /// How many persistent identifiers are still unused.
    pub fn persistent_ids_left(&self) -> (n: u64)
        requires
            self@.wf(),
        ensures
            n == self@.ids.spec_persistent_left(),
    {
        self.ids.persistent_left()
    }

    /// How many unused persistent identifiers storage can still file.
    pub fn storable_ids_left(&self) -> (n: u64)
        requires
            self@.wf(),
        ensures
            n == self@.ids.spec_storable_left(),
            n <= self@.ids.spec_persistent_left(),
    {
        self.ids.storable_left()
    }

    /// How many network identifiers are still unused.
    pub fn network_ids_left(&self) -> (n: u16)
        ensures
            n == self@.ids.spec_network_left(),
    {
        self.ids.network_left()
    }

    /// Issues the next spawned identifier: one above the spawned identifier issued last. It
    /// bears the marker of the spawned partition, it is none of the identifiers issued
    /// before, persistent or spawned, and no live entity has it.
    pub fn new_spawned_id(&mut self) -> (id: ObjId)
        requires
            old(self)@.wf(),
            old(self)@.ids.spec_spawned_left() > 0,
        ensures
            id == old(self)@.ids.spec_next(Partition::Spawned),
            id == old(self)@.ids.current_spawned_id + 1,
            crate::ids::is_spawned(id),
            crate::ids::partition_bits(id) == crate::ids::BITS_SPAWNED,
            crate::ids::partition_bits(id) & crate::ids::BITS_PERSISTENT == 0,
            !old(self)@.ids.issued(id),
            forall|earlier: ObjId| old(self)@.ids.issued(earlier) ==> earlier != id,
            !old(self)@.game_objects.contains_key(id),
            final(self)@ == (StateView {
                ids: old(self)@.ids.spec_advance(Partition::Spawned),
                ..old(self)@
            }),
            final(self)@.follows(old(self)@),
    {
        self.ids.new_spawned_id()
    }

    /// Issues the next persistent identifier: one above the persistent identifier issued
    /// last, or above the seed. It bears the marker of the persistent partition, it is none
    /// of the identifiers issued before, persistent or spawned, and no live entity has it.
    pub fn new_persistent_id(&mut self) -> (id: ObjId)
        requires
            old(self)@.wf(),
            old(self)@.ids.spec_persistent_left() > 0,
        ensures
            id == old(self)@.ids.spec_next(Partition::Persistent),
            id == old(self)@.ids.current_persistent_id + 1,
            crate::ids::is_persistent(id),
            crate::ids::partition_bits(id) == crate::ids::BITS_PERSISTENT,
            crate::ids::partition_bits(id) & crate::ids::BITS_SPAWNED == 0,
            !old(self)@.ids.issued(id),
            forall|earlier: ObjId| old(self)@.ids.issued(earlier) ==> earlier != id,
            !old(self)@.game_objects.contains_key(id),
            final(self)@ == (StateView {
                ids: old(self)@.ids.spec_advance(Partition::Persistent),
                ..old(self)@
            }),
            final(self)@.follows(old(self)@),
    {
        let id = self.ids.new_persistent_id();
        assert(self@.game_objects == old(self)@.game_objects);
        assert forall|obj_id: ObjId| #[trigger]
            self@.game_objects.contains_key(obj_id) implies self@.ids.issued(obj_id) by {
            assert(old(self)@.ids.issued(obj_id));
        }
        id
    }

    /// Issues the next network identifier.
    fn new_network_id(&mut self) -> (id: u16)
        requires
            old(self)@.ids.spec_network_left() > 0,
        ensures
            id == old(self)@.ids.current_network_id + 1,
            final(self)@ == (StateView {
                ids: IdAllocator { current_network_id: id, ..old(self)@.ids },
                ..old(self)@
            }),
    {
        self.ids.new_network_id()
    }

    /// Whether the entity `obj_id` is live.
    pub fn has_game_object(&self, obj_id: ObjId) -> (found: bool)
        ensures
            found == self@.game_objects.contains_key(obj_id),
    {
        self.game_objects.contains_key(&obj_id)
    }

    /// The entity `obj_id`, if it is live.
    pub fn game_object(&self, obj_id: ObjId) -> (found: Option<&GameObject>)
        ensures
            match found {
                Some(entity) => self@.game_objects.contains_key(obj_id)
                    && self@.game_objects[obj_id] == entity@,
                None => !self@.game_objects.contains_key(obj_id),
            },
    {
        self.game_objects.get(&obj_id)
    }

    /// Takes the entity `obj_id` out of the registry. Where no such entity is live, nothing
    /// changes.
    fn take_game_object(&mut self, obj_id: ObjId) -> (taken: Option<GameObject>)
        ensures
            match taken {
                Some(entity) => old(self)@.game_objects.contains_key(obj_id)
                    && old(self)@.game_objects[obj_id] == entity@ && final(self)@
                    == old(self)@.without_game_object(obj_id),
                None => !old(self)@.game_objects.contains_key(obj_id) && final(self)@
                    == old(self)@,
            },
    {
        let taken = self.game_objects.remove(&obj_id);
        assert(self@.game_objects =~= old(self)@.game_objects.remove(obj_id));
        assert(taken is None ==> self@.game_objects =~= old(self)@.game_objects);
        taken
    }

    /// Files `entity` in the registry under `obj_id`.
    fn put_game_object(&mut self, obj_id: ObjId, entity: GameObject)
        requires
            old(self)@.wf(),
            old(self)@.ids.issued(obj_id),
            old(self)@.spawned.contains(obj_id),
            entity@.object_id == obj_id,
        ensures
            final(self)@ == old(self)@.with_game_object(obj_id, entity@),
            final(self)@.follows(old(self)@),
    {
        self.game_objects.insert(obj_id, entity);
        assert(self@.game_objects =~= old(self)@.game_objects.insert(obj_id, entity@));
    }

    /// Adds `obj_id`, an identifier that was just issued, to the spawn record.
    fn record_spawn(&mut self, obj_id: ObjId)
        requires
            old(self)@.wf(),
            old(self)@.ids.issued(obj_id),
            !old(self)@.spawned.contains(obj_id),
        ensures
            final(self)@ == (StateView {
                spawned: old(self)@.spawned.push(obj_id),
                ..old(self)@
            }),
            final(self)@.follows(old(self)@),
    {
        self.spawned.push(obj_id);
        proof {
            let before = old(self)@.spawned;
            let now = self@.spawned;
            assert(self@.game_objects == old(self)@.game_objects);
            assert forall|id: ObjId| #[trigger] self@.game_objects.contains_key(id) implies now.contains(
                id,
            ) by {
                let at = choose|at: int| 0 <= at < before.len() && before[at] == id;
                assert(now[at] == id);
            }
            assert forall|i: int, j: int|
                0 <= i < now.len() && 0 <= j < now.len() && i != j implies now[i] != now[j] by {
                if i < before.len() && j < before.len() {
                    assert(before[i] != before[j]);
                } else if i < before.len() {
                    assert(before.contains(before[i]));
                } else if j < before.len() {
                    assert(before.contains(before[j]));
                }
            }
        }
    }

    /// Builds an entity of the template `lot` and files it under a new identifier of the
    /// persistent or the spawned partition.
    ///
    /// The identifier space is finite. Where no network identifier is left, or none of the
    /// partition, the spawn fails with `IdSpaceExhausted` and changes nothing, even if the
    /// entity could be built.
    fn spawn_internal(&mut self, is_persistent: bool, lot: Lot, config: &SpawnConfig) -> (r: Res<
        ObjId,
    >)
        requires
            old(self)@.wf(),
        ensures
            final(self)@.follows(old(self)@),
            (final(self)@, r) == old(self)@.spec_spawn_internal(is_persistent, lot, config),
    {
        if self.ids.network_left() == 0 {
            return Err(Error::IdSpaceExhausted);
        }
        if is_persistent {
            if self.ids.persistent_left() == 0 {
                return Err(Error::IdSpaceExhausted);
            }
        } else {
            if self.ids.spawned_left() == 0 {
                return Err(Error::IdSpaceExhausted);
            }
        }
        let network_id = self.new_network_id();
        let obj_id = if is_persistent {
            self.new_persistent_id()
        } else {
            self.new_spawned_id()
        };
        let raw_comps = self.templates.capabilities_for(lot);
        match GameObject::new(network_id, obj_id, lot, config, &raw_comps) {
            Ok(game_object) => {
                self.record_spawn(obj_id);
                assert(self@.spawned[self@.spawned.len() - 1] == obj_id);
                self.put_game_object(obj_id, game_object);
                Ok(obj_id)
            },
            Err(e) => Err(e),
        }
    }

    /// The live entities that were spawned, oldest first.
    pub fn all_game_objects(&self) -> (live: Vec<&GameObject>)
        ensures
            live@.len() == self@.spec_all_game_objects().len(),
            forall|i: int| 0 <= i < live@.len() ==> (#[trigger] live@[i])@
                == self@.spec_all_game_objects()[i],
    {
        let mut live: Vec<&GameObject> = Vec::new();
        let mut i: usize = 0;
        while i < self.spawned.len()
            invariant
                i <= self.spawned@.len(),
                live@.len() == self@.spec_live(i as int).len(),
                forall|j: int| 0 <= j < live@.len() ==> (#[trigger] live@[j])@ == self@.spec_live(
                    i as int,
                )[j],
            decreases self.spawned@.len() - i,
        {
            match self.game_object(self.spawned[i]) {
                Some(game_object) => {
                    live.push(game_object);
                },
                None => {},
            }
            i += 1;
        }
        live
    }

    /// Spawns the character of the session `acc_info` and binds the session to it.
    ///
    /// Fails as `spawn` does, with the persistent partition in place of the spawned one. The
    /// session is left as it was then.
    pub fn spawn_player(&mut self, acc_info: &mut AccountInfo) -> (r: Res<ObjId>)
        requires
            old(self)@.wf(),
        ensures
            final(self)@.follows(old(self)@),
            (final(self)@, r) == old(self)@.spec_spawn_player(),
            final(acc_info)@ == match r {
                Ok(obj_id) => AccountInfoView { active_character_id: obj_id, ..old(acc_info)@ },
                Err(_) => old(acc_info)@,
            },
            r is Ok ==> !old(self)@.game_objects.contains_key(r->Ok_0),
    {
        proof {
            if self@.ids.spec_persistent_left() > 0 {
                lemma_next_identifier_is_unused(self@, Partition::Persistent);
            }
        }
        let config = SpawnConfig::empty();
        match self.spawn_internal(true, PLAYER_LOT, &config) {
            Ok(obj_id) => {
                acc_info.set_active_character_id(obj_id);
                Ok(obj_id)
            },
            Err(e) => Err(e),
        }
    }

    /// How far the connection of `peer` has come.
    pub fn session_state(&self, peer: u64) -> (state: SessionState)
        ensures
            state == self@.session_state(peer),
    {
        match self.session(peer) {
            None => SessionState::Unauthenticated,
            Some(info) => if info.active_character_id() != 0 {
                SessionState::InGame
            } else {
                SessionState::Validated
            },
        }
    }

    /// Whether `peer` has a validated session.
    pub fn is_validated(&self, peer: u64) -> (found: bool)
        ensures
            found == self@.validated.contains_key(peer),
    {
        self.validated.contains_key(&peer)
    }

    /// The session of `peer`, if it is validated.
    pub fn session(&self, peer: u64) -> (found: Option<&AccountInfo>)
        ensures
            match found {
                Some(info) => self@.validated.contains_key(peer) && self@.validated[peer]
                    == info@,
                None => !self@.validated.contains_key(peer),
            },
    {
        self.validated.get(&peer)
    }

    /// Takes the session of `peer` out of the registry. Where `peer` has no session, nothing
    /// changes.
    fn take_session(&mut self, peer: u64) -> (taken: Option<AccountInfo>)
        ensures
            match taken {
                Some(info) => old(self)@.validated.contains_key(peer)
                    && old(self)@.validated[peer] == info@ && final(self)@
                    == old(self)@.without_session(peer),
                None => !old(self)@.validated.contains_key(peer) && final(self)@ == old(self)@,
            },
    {
        let taken = self.validated.remove(&peer);
        assert(self@.validated =~= old(self)@.validated.remove(peer));
        assert(taken is None ==> self@.validated =~= old(self)@.validated);
        taken
    }

    /// Files `info` as the session of `peer`.
    fn put_session(&mut self, peer: u64, info: AccountInfo)
        ensures
            final(self)@ == old(self)@.with_session(peer, info@),
    {
        self.validated.insert(peer, info);
        assert(self@.validated =~= old(self)@.validated.insert(peer, info@));
    }

    /// Spawns an entity of the template `lot` that lives as long as the process, and returns
    /// its identifier.
    ///
    /// Fails with `IdSpaceExhausted`, changing nothing, if no network identifier or no
    /// spawned identifier is left. Fails with `UnknownComponent` if the template implies a
    /// capability for which no component exists; no entity is filed then.
    pub fn spawn(&mut self, lot: Lot, config: &SpawnConfig) -> (r: Res<ObjId>)
        requires
            old(self)@.wf(),
        ensures
            final(self)@.follows(old(self)@),
            (final(self)@, r) == old(self)@.spec_spawn(lot, config),
            r is Ok ==> !old(self)@.game_objects.contains_key(r->Ok_0),
    {
        proof {
            if self@.ids.spec_spawned_left() > 0 {
                lemma_next_identifier_is_unused(self@, Partition::Spawned);
            }
        }
        self.spawn_internal(false, lot, config)
    }
    /// Runs `callback` on the entity `obj_id`.
    ///
    /// The entity is taken out of the registry, so that `callback` can work on the entity
    /// and on the registry at once, and is filed again afterwards, whether `callback` failed
    /// or not. Where no such entity is live, the miss is noted, `callback` is not run, and
    /// nothing else changes.
    ///
    /// Where the entity is live, `callback` must leave the registry well formed, may not set a
    /// counter back, and must leave the entity its object identifier. With the functions of
    /// this library it can do no other. Where the entity is missing, nothing is asked of
    /// `callback`: it is not run.
    pub fn with_game_object<F: FnOnce(&mut State, &mut GameObject, &mut Connection) -> Res<()>>(
        &mut self,
        obj_id: ObjId,
        conn: &mut Connection,
        callback: F,
    ) -> (r: Res<()>)
        requires
            old(self)@.wf(),
            old(self)@.game_objects.contains_key(obj_id) ==> forall|
                w: &mut State,
                e: &mut GameObject,
                c: &mut Connection,
            |
                w@ == old(self)@.without_game_object(obj_id) && e@ == old(self)@.game_objects[obj_id]
                    && c@ == old(conn)@ ==> call_requires(callback, (w, e, c)),
            old(self)@.game_objects.contains_key(obj_id) ==> forall|
                w: &mut State,
                e: &mut GameObject,
                c: &mut Connection,
                r: Res<()>,
            |
                w@.wf() && #[trigger] call_ensures(callback, (w, e, c), r) ==> final(w)@.follows(
                    w@,
                ) && final(e)@.object_id == e@.object_id,
        ensures
            final(self)@.follows(old(self)@),
            !old(self)@.game_objects.contains_key(obj_id) ==> r == Ok::<(), Error>(()) && final(self)@ == old(self)@.logged(Diagnostic::MissingGameObject(obj_id)) && final(conn)@
                == old(conn)@,
            old(self)@.game_objects.contains_key(obj_id) ==> exists|
                w: &mut State,
                e: &mut GameObject,
                c: &mut Connection,
            |
                #[trigger] call_ensures(callback, (w, e, c), r) && w@
                    == old(self)@.without_game_object(obj_id) && e@
                    == old(self)@.game_objects[obj_id] && c@ == old(conn)@ && final(self)@
                    == final(w)@.with_game_object(obj_id, final(e)@) && final(conn)@ == final(c)@,
    {
        let mut game_object = match self.take_game_object(obj_id) {
            Some(x) => x,
            None => {
                self.note(Diagnostic::MissingGameObject(obj_id));
                return Ok(());
            },
        };
        let ghost taken = self@;
        let r = callback(self, &mut game_object, conn);
        proof {
            lemma_follows_keeps_record(taken, self@, obj_id);
        }
        self.put_game_object(obj_id, game_object);
        r
    }

    /// Runs `callback` on the entity that the session `acc_info` plays.
    pub fn with_char<F: FnOnce(&mut State, &mut GameObject, &mut Connection) -> Res<()>>(
        &mut self,
        acc_info: &AccountInfo,
        conn: &mut Connection,
        callback: F,
    ) -> (r: Res<()>)
        requires
            old(self)@.wf(),
            old(self)@.game_objects.contains_key(acc_info@.active_character_id) ==> forall|
                w: &mut State,
                e: &mut GameObject,
                c: &mut Connection,
            |
                w@ == old(self)@.without_game_object(acc_info@.active_character_id) && e@
                    == old(self)@.game_objects[acc_info@.active_character_id] && c@ == old(conn)@
                    ==> call_requires(callback, (w, e, c)),
            old(self)@.game_objects.contains_key(acc_info@.active_character_id) ==> forall|
                w: &mut State,
                e: &mut GameObject,
                c: &mut Connection,
                r: Res<()>,
            |
                w@.wf() && #[trigger] call_ensures(callback, (w, e, c), r) ==> final(w)@.follows(
                    w@,
                ) && final(e)@.object_id == e@.object_id,
        ensures
            final(self)@.follows(old(self)@),
            !old(self)@.game_objects.contains_key(acc_info@.active_character_id) ==> r == Ok::<
                (),
                Error,
            >(()) && final(self)@ == old(self)@.logged(
                Diagnostic::MissingGameObject(acc_info@.active_character_id),
            ) && final(conn)@ == old(conn)@,
            old(self)@.game_objects.contains_key(acc_info@.active_character_id) ==> exists|
                w: &mut State,
                e: &mut GameObject,
                c: &mut Connection,
            |
                #[trigger] call_ensures(callback, (w, e, c), r) && w@
                    == old(self)@.without_game_object(acc_info@.active_character_id) && e@
                    == old(self)@.game_objects[acc_info@.active_character_id] && c@ == old(conn)@
                    && final(self)@ == final(w)@.with_game_object(
                    acc_info@.active_character_id,
                    final(e)@,
                ) && final(conn)@ == final(c)@,
    {
        self.with_game_object(acc_info.active_character_id, conn, callback)
    }

    /// Handles a client's credentials: the credential service is to be asked.
    pub fn on_client_val(&self, cli_val: &ClientValidation, conn: &mut Connection) -> (r: Res<
        Pending,
    >)
        ensures
            final(conn)@ == old(conn)@,
            r is Ok,
            (Turn { state: self@, conn: final(conn)@, result: Ok(r->Ok_0@) })
                == spec_on_client_val(self@, *cli_val, old(conn)@),
    {
        Ok(
            Pending::Verify {
                username: cli_val.username.clone(),
                session_key: cli_val.session_key.clone(),
            },
        )
    }

    /// Handles the credential service's verdict on the credentials of `username`.
    ///
    /// Only the status code 200 with the body `1` validates the session. Any other outcome is
    /// noted and ends in a forced disconnect; no session is filed.
    pub fn on_verification(
        &mut self,
        username: String,
        outcome: &Verification,
        conn: &mut Connection,
    ) -> (r: Res<Pending>)
        ensures
            (Turn {
                state: final(self)@,
                conn: final(conn)@,
                result: match r {
                    Ok(pending) => Ok(pending@),
                    Err(e) => Err(e),
                },
            }) == spec_on_verification(old(self)@, username@, *outcome, old(conn)@),
    {
        match outcome {
            Verification::CallFailed => {
                self.note(Diagnostic::VerificationUnavailable);
                done(force_disconnect(conn, DisconnectNotify::UnknownServerError))
            },
            Verification::Response { status_code, body } => {
                if *status_code != 200 {
                    self.note(Diagnostic::VerificationError(*status_code));
                    return done(force_disconnect(conn, DisconnectNotify::UnknownServerError));
                }
                if !(body.len() == 1 && body[0] == AFFIRMATIVE) {
                    assert(body@ != seq![AFFIRMATIVE]) by {
                        if body@.len() == 1 {
                            assert(seq![AFFIRMATIVE][0] == AFFIRMATIVE);
                        } else {
                            assert(seq![AFFIRMATIVE].len() == 1);
                        }
                    }
                    self.note(Diagnostic::InvalidSessionKey);
                    return done(force_disconnect(conn, DisconnectNotify::InvalidSessionKey));
                }
                assert(body@ =~= seq![AFFIRMATIVE]);
                let peer_addr = conn.peer_addr();
                self.put_session(peer_addr, AccountInfo::new(username));
                Ok(Pending::Nothing)
            },
        }
    }

    /// Handles a restricted message.
    ///
    /// From a peer without a validated session, the message ends in a forced disconnect: the
    /// attempt is noted, the peer is told that its session is invalid, and the connection is
    /// closed. Nothing else changes. Otherwise the session is taken out of the registry, the
    /// message is handled for it, and the session is filed again, whether the handler failed
    /// or not.
    pub fn on_restricted_msg(&mut self, msg: &WorldMessage, conn: &mut Connection) -> (r: Res<
        Pending,
    >)
        requires
            old(self)@.wf(),
        ensures
            final(self)@.follows(old(self)@),
            (Turn {
                state: final(self)@,
                conn: final(conn)@,
                result: match r {
                    Ok(pending) => Ok(pending@),
                    Err(e) => Err(e),
                },
            }) == spec_on_restricted_msg(old(self)@, *msg, old(conn)@),
    {
        let addr = conn.peer_addr();
        let mut acc_info = match self.take_session(addr) {
            None => {
                self.note(Diagnostic::UnvalidatedClient(addr));
                return done(force_disconnect(conn, DisconnectNotify::InvalidSessionKey));
            },
            Some(info) => info,
        };
        let r = on_validated_msg(self, msg, &mut acc_info, conn);
        self.put_session(addr, acc_info);
        r
    }

    /// Dispatches an incoming message to its handler.
    ///
    /// The transport's own messages are handed back as `Pending::Transport`. Credentials are
    /// handled whatever the state of the session; every other message of the world service
    /// is restricted. A message that is neither is noted and dropped.
    pub fn on_msg(&mut self, msg: &IncMessage, conn: &mut Connection) -> (r: Res<Pending>)
        requires
            old(self)@.wf(),
        ensures
            final(self)@.follows(old(self)@),
            (Turn {
                state: final(self)@,
                conn: final(conn)@,
                result: match r {
                    Ok(pending) => Ok(pending@),
                    Err(e) => Err(e),
                },
            }) == spec_on_msg(old(self)@, *msg, old(conn)@),
    {
        match msg {
            IncMessage::InternalPing => Ok(Pending::Transport(TransportStep::InternalPing)),
            IncMessage::ConnectionRequest => Ok(
                Pending::Transport(TransportStep::ConnectionRequest),
            ),
            IncMessage::NewIncomingConnection => {
                self.note(Diagnostic::NewIncomingConnection);
                Ok(Pending::Nothing)
            },
            IncMessage::Handshake => Ok(Pending::Transport(TransportStep::Handshake)),
            IncMessage::World(WorldMessage::ClientValidation(msg)) => self.on_client_val(msg, conn),
            IncMessage::World(msg) => self.on_restricted_msg(msg, conn),
            IncMessage::Other => {
                self.note(Diagnostic::Unsolicited);
                Ok(Pending::Nothing)
            },
        }
    }

    /// Takes the outcome of outside work that `pending` asked for, and goes on from there.
    ///
    /// A reply that does not answer `pending` is noted and dropped. A reply from storage for
    /// a peer without a validated session ends in a forced disconnect, as a restricted
    /// message does.
    ///
    /// A failure of storage always reaches the client: a character that could not be saved
    /// or deleted is reported in the response to the request, and where the characters of an
    /// account could not be loaded, the client is told of a server error and the connection
    /// is closed.
    pub fn on_reply(&mut self, pending: &Pending, reply: &Reply, conn: &mut Connection) -> (r: Res<
        Pending,
    >)
        requires
            old(self)@.wf(),
        ensures
            final(self)@.follows(old(self)@),
            (Turn {
                state: final(self)@,
                conn: final(conn)@,
                result: match r {
                    Ok(pending) => Ok(pending@),
                    Err(e) => Err(e),
                },
            }) == spec_on_reply(old(self)@, *pending, *reply, old(conn)@),
    {
        match pending {
            Pending::Verify { username, session_key: _ } => {
                match reply {
                    Reply::Verification(outcome) => {
                        return self.on_verification(username.clone(), outcome, conn);
                    },
                    _ => {},
                }
            },
            Pending::LoadCharacters { username: _ } => {
                match reply {
                    Reply::Characters(loaded) => {
                        if !self.is_validated(conn.peer_addr()) {
                            self.note(Diagnostic::UnvalidatedClient(conn.peer_addr()));
                            return done(
                                force_disconnect(conn, DisconnectNotify::InvalidSessionKey),
                            );
                        }
                        match loaded {
                            Some(chars) => {
                                return done(on_char_list_reply(chars, conn));
                            },
                            None => {
                                self.note(Diagnostic::CharactersNotLoaded);
                                return match force_disconnect(
                                    conn,
                                    DisconnectNotify::UnknownServerError,
                                ) {
                                    Ok(_) => Err(Error::Storage),
                                    Err(e) => Err(e),
                                };
                            },
                        }
                    },
                    _ => {},
                }
            },
            Pending::InsertCharacter { row } => {
                match reply {
                    Reply::Inserted(inserted) => {
                        if !self.is_validated(conn.peer_addr()) {
                            self.note(Diagnostic::UnvalidatedClient(conn.peer_addr()));
                            return done(
                                force_disconnect(conn, DisconnectNotify::InvalidSessionKey),
                            );
                        }
                        return on_char_create_reply(self, &row.username, *inserted, conn);
                    },
                    _ => {},
                }
            },
            Pending::DeleteCharacter { username: _, char_id } => {
                match reply {
                    Reply::Deleted(success) => {
                        if !self.is_validated(conn.peer_addr()) {
                            self.note(Diagnostic::UnvalidatedClient(conn.peer_addr()));
                            return done(
                                force_disconnect(conn, DisconnectNotify::InvalidSessionKey),
                            );
                        }
                        return on_char_del_reply(self, *char_id, *success, conn);
                    },
                    _ => {},
                }
            },
            _ => {},
        }
        self.note(Diagnostic::UnexpectedReply);
        Ok(Pending::Nothing)
    }
}

/// The body with which the credential service affirms a session key: the digit one.
pub const AFFIRMATIVE: u8 = 0x31;

/// The status code with which the credential service answers a question it has understood.
pub const STATUS_OK: i32 = 200;

/// The turn that handles a client's credentials: the credential service is to be asked.
pub open spec fn spec_on_client_val(
    state: StateView,
    cli_val: ClientValidation,
    conn: ConnectionView,
) -> Turn {
    Turn {
        state,
        conn,
        result: Ok(
            PendingView::Verify {
                username: cli_val.username@,
                session_key: cli_val.session_key@,
            },
        ),
    }
}

/// The turn of a forced disconnect: `diagnostic` is noted, the peer is told `reason`, and the
/// connection is closed. Sessions, entities and counters stay as they are.
pub open spec fn spec_reject(
    state: StateView,
    diagnostic: Diagnostic,
    conn: ConnectionView,
    reason: DisconnectNotify,
) -> Turn {
    Turn {
        state: state.logged(diagnostic),
        conn: spec_force_disconnect(conn, reason),
        result: spec_done(conn.attempt()),
    }
}

/// The turn that handles the credential service's verdict on the credentials of `username`.
/// Only the status code 200 with the body `1` files a session for the peer: validated, and
/// not in the game. Any other outcome ends in a forced disconnect.
pub open spec fn spec_on_verification(
    state: StateView,
    username: Seq<char>,
    outcome: Verification,
    conn: ConnectionView,
) -> Turn {
    match outcome {
        Verification::CallFailed => spec_reject(
            state,
            Diagnostic::VerificationUnavailable,
            conn,
            DisconnectNotify::UnknownServerError,
        ),
        Verification::Response { status_code, body } => if status_code != STATUS_OK {
            spec_reject(
                state,
                Diagnostic::VerificationError(status_code),
                conn,
                DisconnectNotify::UnknownServerError,
            )
        } else if body@ != seq![AFFIRMATIVE] {
            spec_reject(
                state,
                Diagnostic::InvalidSessionKey,
                conn,
                DisconnectNotify::InvalidSessionKey,
            )
        } else {
            Turn {
                state: state.with_session(
                    conn.peer,
                    AccountInfoView { username, active_character_id: 0 },
                ),
                conn,
                result: Ok(PendingView::Nothing),
            }
        },
    }
}

/// The turn that handles a restricted message.
pub open spec fn spec_on_restricted_msg(
    state: StateView,
    msg: WorldMessage,
    conn: ConnectionView,
) -> Turn {
    if !state.validated.contains_key(conn.peer) {
        spec_reject(
            state,
            Diagnostic::UnvalidatedClient(conn.peer),
            conn,
            DisconnectNotify::InvalidSessionKey,
        )
    } else {
        let (acc, turn) = spec_on_validated_msg(
            state.without_session(conn.peer),
            msg,
            state.validated[conn.peer],
            conn,
        );
        Turn { state: turn.state.with_session(conn.peer, acc), ..turn }
    }
}

/// The turn that handles an incoming message.
pub open spec fn spec_on_msg(state: StateView, msg: IncMessage, conn: ConnectionView) -> Turn {
    match msg {
        IncMessage::InternalPing => Turn {
            state,
            conn,
            result: Ok(PendingView::Transport(TransportStep::InternalPing)),
        },
        IncMessage::ConnectionRequest => Turn {
            state,
            conn,
            result: Ok(PendingView::Transport(TransportStep::ConnectionRequest)),
        },
        IncMessage::NewIncomingConnection => Turn {
            state: state.logged(Diagnostic::NewIncomingConnection),
            conn,
            result: Ok(PendingView::Nothing),
        },
        IncMessage::Handshake => Turn {
            state,
            conn,
            result: Ok(PendingView::Transport(TransportStep::Handshake)),
        },
        IncMessage::World(WorldMessage::ClientValidation(cli_val)) => spec_on_client_val(
            state,
            cli_val,
            conn,
        ),
        IncMessage::World(world) => spec_on_restricted_msg(state, world, conn),
        IncMessage::Other => Turn {
            state: state.logged(Diagnostic::Unsolicited),
            conn,
            result: Ok(PendingView::Nothing),
        },
    }
}

/// The turn that handles storage's answer `answered`, for a peer with a validated session;
/// for any other peer, the turn of a forced disconnect.
pub open spec fn spec_for_validated(state: StateView, conn: ConnectionView, answered: Turn) -> Turn {
    if state.validated.contains_key(conn.peer) {
        answered
    } else {
        spec_reject(
            state,
            Diagnostic::UnvalidatedClient(conn.peer),
            conn,
            DisconnectNotify::InvalidSessionKey,
        )
    }
}

/// The turn that takes the outcome of outside work.
pub open spec fn spec_on_reply(
    state: StateView,
    pending: Pending,
    reply: Reply,
    conn: ConnectionView,
) -> Turn {
    let unexpected = Turn {
        state: state.logged(Diagnostic::UnexpectedReply),
        conn,
        result: Ok(PendingView::Nothing),
    };
    match pending {
        Pending::Verify { username, session_key } => match reply {
            Reply::Verification(outcome) => spec_on_verification(state, username@, outcome, conn),
            _ => unexpected,
        },
        Pending::LoadCharacters { username } => match reply {
            Reply::Characters(Some(chars)) => spec_for_validated(
                state,
                conn,
                Turn {
                    state,
                    conn: spec_on_char_list_reply(rows_view(chars@), conn),
                    result: spec_done(conn.attempt()),
                },
            ),
            Reply::Characters(None) => spec_for_validated(
                state,
                conn,
                Turn {
                    state: state.logged(Diagnostic::CharactersNotLoaded),
                    conn: spec_force_disconnect(conn, DisconnectNotify::UnknownServerError),
                    result: match conn.attempt() {
                        Ok(_) => Err(Error::Storage),
                        Err(e) => Err(e),
                    },
                },
            ),
            _ => unexpected,
        },
        Pending::InsertCharacter { row } => match reply {
            Reply::Inserted(inserted) => spec_for_validated(
                state,
                conn,
                spec_on_char_create_reply(state, row.username@, inserted, conn),
            ),
            _ => unexpected,
        },
        Pending::DeleteCharacter { username, char_id } => match reply {
            Reply::Deleted(success) => spec_for_validated(
                state,
                conn,
                spec_on_char_del_reply(state, char_id, success, conn),
            ),
            _ => unexpected,
        },
        _ => unexpected,
    }
}

/// A message that can only be handled for a session in the game, from a connection that is
/// unauthenticated or merely validated, always ends in a forced disconnect: the connection is
/// closed, and if it was open before, the peer has been told that its session is invalid. No
/// handler runs: entities, sessions, counters and the spawn record stay as they are, and only
/// a line for the log is added.
pub proof fn lemma_in_game_messages_need_a_session_in_game(
    state: StateView,
    msg: WorldMessage,
    conn: ConnectionView,
)
    requires
        crate::listeners::spec_requires_in_game(msg),
        state.session_state(conn.peer) != SessionState::InGame,
    ensures
        !spec_on_msg(state, IncMessage::World(msg), conn).conn.open,
        spec_on_msg(state, IncMessage::World(msg), conn).conn.outbox == if conn.open {
            conn.outbox.push(
                crate::messages::OutboundView::Send(
                    crate::messages::OutMessageView::DisconnectNotify(
                        DisconnectNotify::InvalidSessionKey,
                    ),
                ),
            )
        } else {
            conn.outbox
        },
        spec_on_msg(state, IncMessage::World(msg), conn).result == spec_done(conn.attempt()),
        spec_on_msg(state, IncMessage::World(msg), conn).state == state.logged(
            if state.session_state(conn.peer) == SessionState::Validated {
                Diagnostic::NotInGame(conn.peer)
            } else {
                Diagnostic::UnvalidatedClient(conn.peer)
            },
        ),
{
    let turn = spec_on_msg(state, IncMessage::World(msg), conn);
    if state.validated.contains_key(conn.peer) {
        assert(turn.state.validated =~= state.validated);
    }
}

/// A restricted message from an unauthenticated connection never reaches a handler: it ends
/// in a forced disconnect, and sessions, entities and counters stay as they are.
pub proof fn lemma_restricted_messages_need_a_session(
    state: StateView,
    msg: WorldMessage,
    conn: ConnectionView,
)
    requires
        !(msg is ClientValidation),
        state.session_state(conn.peer) == SessionState::Unauthenticated,
    ensures
        spec_on_msg(state, IncMessage::World(msg), conn) == spec_reject(
            state,
            Diagnostic::UnvalidatedClient(conn.peer),
            conn,
            DisconnectNotify::InvalidSessionKey,
        ),
{
}

/// No message validates a connection: an unauthenticated connection stays unauthenticated
/// whatever it sends. Only the credential service's affirmative answer files a session.
pub proof fn lemma_messages_do_not_validate(state: StateView, msg: IncMessage, conn: ConnectionView)
    requires
        state.session_state(conn.peer) == SessionState::Unauthenticated,
    ensures
        spec_on_msg(state, msg, conn).state.session_state(conn.peer)
            == SessionState::Unauthenticated,
{
}

/// The credential service's answer validates a connection exactly if it is the status code
/// 200 with the body `1`; the connection is then validated and not in the game. Any other
/// answer leaves the sessions as they are and closes the connection.
pub proof fn lemma_only_an_affirmative_answer_validates(
    state: StateView,
    username: Seq<char>,
    outcome: Verification,
    conn: ConnectionView,
)
    ensures
        outcome == (Verification::Response { status_code: STATUS_OK, body: outcome->body })
            && outcome->body@ == seq![AFFIRMATIVE] ==> spec_on_verification(
            state,
            username,
            outcome,
            conn,
        ).state.session_state(conn.peer) == SessionState::Validated && spec_on_verification(
            state,
            username,
            outcome,
            conn,
        ).conn == conn,
        !(outcome is Response && outcome->status_code == STATUS_OK && outcome->body@
            == seq![AFFIRMATIVE]) ==> spec_on_verification(state, username, outcome, conn).state.validated
            == state.validated && !spec_on_verification(state, username, outcome, conn).conn.open,
{
}

/// A connection gets into the game only when the client reports that its world has loaded:
/// any other restricted message leaves a validated connection validated, with its session
/// as it was.
pub proof fn lemma_only_level_load_binds_an_entity(
    state: StateView,
    msg: WorldMessage,
    conn: ConnectionView,
)
    requires
        !(msg is ClientValidation),
        !(msg is LevelLoadComplete),
        state.session_state(conn.peer) == SessionState::Validated,
    ensures
        spec_on_msg(state, IncMessage::World(msg), conn).state.session_state(conn.peer)
            == SessionState::Validated,
        spec_on_msg(state, IncMessage::World(msg), conn).state.validated[conn.peer]
            == state.validated[conn.peer],
{
}

/// A report that the world has loaded takes a validated connection into the game exactly if
/// the character can be spawned; the session is then bound to the new character, which is
/// live.
pub proof fn lemma_level_load_binds_the_spawned_character(state: StateView, conn: ConnectionView)
    requires
        state.wf(),
        state.session_state(conn.peer) != SessionState::Unauthenticated,
    ensures
        ({
            let msg = IncMessage::World(
                WorldMessage::LevelLoadComplete(crate::messages::LevelLoadComplete {  }),
            );
            let after = spec_on_msg(state, msg, conn).state;
            let spawned = state.without_session(conn.peer).spec_spawn_player();
            match spawned.1 {
                Ok(obj_id) => after.session_state(conn.peer) == SessionState::InGame
                    && after.validated[conn.peer].active_character_id == obj_id
                    && after.game_objects.contains_key(obj_id) && !state.game_objects.contains_key(
                    obj_id,
                ),
                Err(_) => after.validated[conn.peer] == state.validated[conn.peer],
            }
        }),
{
    let msg = IncMessage::World(
        WorldMessage::LevelLoadComplete(crate::messages::LevelLoadComplete {  }),
    );
    let detached = state.without_session(conn.peer);
    if detached.ids.spec_persistent_left() > 0 {
        lemma_next_identifier_is_unused(detached, Partition::Persistent);
        crate::ids::lemma_partition_bits(detached.ids.spec_next(Partition::Persistent));
    }
}

/// In a well-formed registry, the identifier that is issued next is one that no live entity
/// has: a spawn never files an entity in the place of another.
pub proof fn lemma_next_identifier_is_unused(state: StateView, partition: Partition)
    requires
        state.wf(),
        state.ids.spec_left(partition) > 0,
    ensures
        !state.game_objects.contains_key(state.ids.spec_next(partition)),
        !state.ids.issued(state.ids.spec_next(partition)),
        state.ids.spec_advance(partition).issued(state.ids.spec_next(partition)),
{
}

/// What a registry has recorded and issued, every later state of it has recorded and
/// issued too.
pub proof fn lemma_follows_keeps_record(earlier: StateView, later: StateView, obj_id: ObjId)
    requires
        later.follows(earlier),
    ensures
        earlier.spawned.contains(obj_id) ==> later.spawned.contains(obj_id),
        earlier.ids.issued(obj_id) ==> later.ids.issued(obj_id),
{
    if earlier.spawned.contains(obj_id) {
        let at = choose|at: int| 0 <= at < earlier.spawned.len() && earlier.spawned[at] == obj_id;
        assert(later.spawned[at] == obj_id);
    }
}

/// The live entities among the first `n` that were spawned: each is listed under its own
/// identifier, which is one of the first `n` of the spawn record; none is listed twice; and
/// none is left out.
pub proof fn lemma_live(state: StateView, n: int)
    requires
        state.wf(),
        0 <= n <= state.spawned.len(),
    ensures
        forall|i: int|
            0 <= i < state.spec_live(n).len() ==> {
                let entity = #[trigger] state.spec_live(n)[i];
                &&& state.game_objects.contains_key(entity.object_id)
                &&& state.game_objects[entity.object_id] == entity
                &&& exists|k: int| 0 <= k < n && state.spawned[k] == entity.object_id
            },
        forall|i: int, j: int|
            0 <= i < j < state.spec_live(n).len() ==> (#[trigger] state.spec_live(n)[i]).object_id
                != (#[trigger] state.spec_live(n)[j]).object_id,
        forall|k: int|
            0 <= k < n && state.game_objects.contains_key(#[trigger] state.spawned[k])
                ==> state.spec_live(n).contains(state.game_objects[state.spawned[k]]),
    decreases n,
{
    if n > 0 {
        lemma_live(state, n - 1);
        let before = state.spec_live(n - 1);
        let now = state.spec_live(n);
        let newest = state.spawned[n - 1];
        assert forall|i: int| 0 <= i < now.len() implies {
            let entity = #[trigger] now[i];
            &&& state.game_objects.contains_key(entity.object_id)
            &&& state.game_objects[entity.object_id] == entity
            &&& exists|k: int| 0 <= k < n && state.spawned[k] == entity.object_id
        } by {
            if i < before.len() {
                let entity = before[i];
                assert(now[i] == entity);
                let k = choose|k: int| 0 <= k < n - 1 && state.spawned[k] == entity.object_id;
                assert(0 <= k < n && state.spawned[k] == entity.object_id);
            } else {
                assert(now[i] == state.game_objects[newest]);
                assert(state.spawned[n - 1] == now[i].object_id);
            }
        }
        assert forall|i: int, j: int| 0 <= i < j < now.len() implies (#[trigger] now[i]).object_id
            != (#[trigger] now[j]).object_id by {
            assert(now[i] == before[i]);
            if j < before.len() {
                assert(now[j] == before[j]);
            } else {
                let k = choose|k: int| 0 <= k < n - 1 && state.spawned[k] == before[i].object_id;
                assert(state.spawned[k] != state.spawned[n - 1]);
            }
        }
        assert forall|k: int|
            0 <= k < n && state.game_objects.contains_key(
                #[trigger] state.spawned[k],
            ) implies now.contains(state.game_objects[state.spawned[k]]) by {
            if k < n - 1 {
                let entity = state.game_objects[state.spawned[k]];
                assert(before.contains(entity));
                let at = choose|at: int| 0 <= at < before.len() && before[at] == entity;
                assert(now[at] == entity);
            } else {
                assert(now[now.len() - 1] == state.game_objects[newest]);
            }
        }
    }
}

/// The list of all live entities holds every live entity, and holds none twice.
pub proof fn lemma_all_game_objects(state: StateView, obj_id: ObjId)
    requires
        state.wf(),
        state.game_objects.contains_key(obj_id),
    ensures
        state.spec_all_game_objects().contains(state.game_objects[obj_id]),
        forall|i: int, j: int|
            0 <= i < j < state.spec_all_game_objects().len() ==> (
            #[trigger] state.spec_all_game_objects()[i]).object_id != (
            #[trigger] state.spec_all_game_objects()[j]).object_id,
{
    lemma_live(state, state.spawned.len() as int);
    let k = choose|k: int| 0 <= k < state.spawned.len() && state.spawned[k] == obj_id;
    assert(state.game_objects.contains_key(state.spawned[k]));
}

/// A failure of storage is never silent: whatever storage could not do for a validated
/// connection that is still open, the client is sent a message that says so, and the
/// failure is noted.
pub proof fn lemma_storage_failures_reach_the_client(
    state: StateView,
    pending: Pending,
    reply: Reply,
    conn: ConnectionView,
)
    requires
        conn.open,
        state.session_state(conn.peer) != SessionState::Unauthenticated,
        (pending is LoadCharacters && reply == Reply::Characters(None)) || (pending
            is InsertCharacter && reply == Reply::Inserted(false)) || (pending is DeleteCharacter
            && reply == Reply::Deleted(false)),
    ensures
        spec_on_reply(state, pending, reply, conn).conn.outbox.len() == conn.outbox.len() + 1,
        spec_on_reply(state, pending, reply, conn).conn.outbox.last() == match pending {
            Pending::LoadCharacters { .. } => crate::messages::OutboundView::Send(
                crate::messages::OutMessageView::DisconnectNotify(
                    DisconnectNotify::UnknownServerError,
                ),
            ),
            Pending::InsertCharacter { .. } => crate::messages::OutboundView::Send(
                crate::messages::OutMessageView::CharacterCreateResponse(
                    crate::messages::CharacterCreateResponse::GeneralFailure,
                ),
            ),
            _ => crate::messages::OutboundView::Send(
                crate::messages::OutMessageView::CharacterDeleteResponse(
                    crate::messages::CharacterDeleteResponse { success: false },
                ),
            ),
        },
        spec_on_reply(state, pending, reply, conn).state.log.len() == state.log.len() + 1,
{
}

} // verus!
