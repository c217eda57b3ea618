//! What an entity carries and wears.
use vstd::prelude::*;
use vstd::string::*;
use crate::connection::Connection;
use crate::error::{Error, Res};
use crate::ids::{Lot, ObjId, Partition};
use crate::math::{SpawnConfig, Vector3};
use crate::messages::{
    AddItemToInventoryClientSync, ClientGM, EquipInventory, InventoryType, LootType, OutMessage,
    OutMessageView, ServerGM,
};
use crate::replica::{EquippedItemInfo, InventoryConstruction, InventorySerialization};
use crate::services::{AddItem, GameObjectServiceMut};
use crate::state::{State, StateView};
use super::{GameObject, Scene};

verus! {

/// What an entity carries and wears. Every inventory starts with the same two items equipped,
/// and reports them in every snapshot.
#[derive(Clone, Copy, Debug, PartialEq, Eq, Structural)]
pub struct InventoryComponent {
}

impl InventoryComponent {
    /// The component of a new entity. The spawn configuration has no bearing on it.
    pub fn new(_config: &SpawnConfig) -> (c: Self)
        ensures
            c == (InventoryComponent {}),
    {
        Self {}
    }

    /// The full snapshot.
    pub open spec fn spec_construction(&self) -> InventoryConstruction {
        InventoryConstruction {
            equipped_items: Some(
                [
                    EquippedItemInfo {
                        id: 1152921510436607008,
                        lot: 4106,
                        subkey: None,
                        count: Some(1),
                        slot: None,
                        inventory_type: None,
                        is_bound: true,
                    },
                    EquippedItemInfo {
                        id: 1152921510436607009,
                        lot: 2524,
                        subkey: None,
                        count: Some(1),
                        slot: Some(1),
                        inventory_type: None,
                        is_bound: true,
                    },
                ],
            ),
        }
    }

    /// The update snapshot.
    pub open spec fn spec_serialization(&self) -> InventorySerialization {
        InventorySerialization {
            equipped_items: Some(
                [
                    EquippedItemInfo {
                        id: 1152921510436607008,
                        lot: 4106,
                        subkey: None,
                        count: Some(1),
                        slot: None,
                        inventory_type: None,
                        is_bound: true,
                    },
                    EquippedItemInfo {
                        id: 1152921510436607009,
                        lot: 2524,
                        subkey: None,
                        count: Some(1),
                        slot: Some(1),
                        inventory_type: None,
                        is_bound: true,
                    },
                ],
            ),
        }
    }

    /// The full snapshot.
    pub fn make_construction(&self) -> (r: InventoryConstruction)
        ensures
            r == self.spec_construction(),
    {
        InventoryConstruction {
            equipped_items: Some(
                [
                    EquippedItemInfo {
                        id: 1152921510436607008,
                        lot: 4106,
                        subkey: None,
                        count: Some(1),
                        slot: None,
                        inventory_type: None,
                        is_bound: true,
                    },
                    EquippedItemInfo {
                        id: 1152921510436607009,
                        lot: 2524,
                        subkey: None,
                        count: Some(1),
                        slot: Some(1),
                        inventory_type: None,
                        is_bound: true,
                    },
                ],
            ),
        }
    }

    /// The update snapshot.
    pub fn make_serialization(&self) -> (r: InventorySerialization)
        ensures
            r == self.spec_serialization(),
    {
        InventorySerialization {
            equipped_items: Some(
                [
                    EquippedItemInfo {
                        id: 1152921510436607008,
                        lot: 4106,
                        subkey: None,
                        count: Some(1),
                        slot: None,
                        inventory_type: None,
                        is_bound: true,
                    },
                    EquippedItemInfo {
                        id: 1152921510436607009,
                        lot: 2524,
                        subkey: None,
                        count: Some(1),
                        slot: Some(1),
                        inventory_type: None,
                        is_bound: true,
                    },
                ],
            ),
        }
    }

    /// The inventory's part of a character's saved data.
    pub open spec fn spec_xml() -> Seq<char> {
        INVENTORY_XML@
    }

    /// Appends the inventory's part of a character's saved data to `writer`.
    pub fn write_xml(&self, writer: &mut String)
        ensures
            final(writer)@ == old(writer)@ + Self::spec_xml(),
    {
        writer.append(INVENTORY_XML);
    }
    /// What a client is told when one item of the template `lot` arrives under the identifier
    /// `new_obj_id`.
    pub open spec fn spec_add_item_sync(lot: Lot, new_obj_id: ObjId) -> AddItemToInventoryClientSync {
        AddItemToInventoryClientSync {
            bound: false,
            is_boe: false,
            is_bop: false,
            loot_type_source: LootType::Unspecified,
            obj_template: lot,
            subkey: 0,
            inv_type: InventoryType::Default,
            item_count: 1,
            items_total: 1,
            new_obj_id,
            flying_loot_posit: Vector3::spec_zero(),
            show_flying_loot: true,
            slot_id: 2,
        }
    }

    /// The scene after an item was added: a spawned identifier is used up for the item, and
    /// the peer is told of it. Where no spawned identifier is left, nothing changes and the
    /// request fails. Where the connection is closed, the identifier is used up all the same.
    pub open spec fn spec_add_item(add_item: AddItem, scene: Scene) -> Scene {
        if scene.state.ids.spec_spawned_left() <= 0 {
            Scene { result: Err(Error::IdSpaceExhausted), ..scene }
        } else {
            Scene {
                state: StateView {
                    ids: scene.state.ids.spec_advance(Partition::Spawned),
                    ..scene.state
                },
                conn: scene.conn.send(
                    OutMessageView::SubjectGameMessage(
                        scene.entity.spec_make_sgm(
                            ClientGM::AddItemToInventoryClientSync(
                                Self::spec_add_item_sync(
                                    add_item.lot,
                                    scene.state.ids.spec_next(Partition::Spawned),
                                ),
                            ),
                        ),
                    ),
                ),
                result: scene.conn.attempt(),
                ..scene
            }
        }
    }

    /// The scene after this component has seen a mutating query.
    pub open spec fn spec_run_service_mut(service: GameObjectServiceMut, scene: Scene) -> Scene {
        match service {
            GameObjectServiceMut::AddItem(add_item) => Self::spec_add_item(add_item, scene),
            _ => scene,
        }
    }

    /// Obeys a request to add an item; lets any other query pass.
    pub fn run_service_mut(
        &mut self,
        service: &GameObjectServiceMut,
        game_object: &mut GameObject,
        state: &mut State,
        conn: &mut Connection,
    ) -> (r: Res<()>)
        requires
            old(state)@.wf(),
        ensures
            final(state)@.follows(old(state)@),
            *final(self) == *old(self),
            (Scene {
                entity: final(game_object)@,
                state: final(state)@,
                conn: final(conn)@,
                result: r,
            }) == Self::spec_run_service_mut(
                *service,
                Scene {
                    entity: old(game_object)@,
                    state: old(state)@,
                    conn: old(conn)@,
                    result: Ok(()),
                },
            ),
    {
        match service {
            GameObjectServiceMut::AddItem(add_item) => {
                if state.spawned_ids_left() == 0 {
                    return Err(Error::IdSpaceExhausted);
                }
                let lot = add_item.lot;
                let new_obj_id = state.new_spawned_id();
                let add = AddItemToInventoryClientSync {
                    bound: false,
                    is_boe: false,
                    is_bop: false,
                    loot_type_source: LootType::Unspecified,
                    obj_template: lot,
                    subkey: 0,
                    inv_type: InventoryType::Default,
                    item_count: 1,
                    items_total: 1,
                    new_obj_id,
                    flying_loot_posit: Vector3::zero(),
                    show_flying_loot: true,
                    slot_id: 2,
                };
                let gm = game_object.make_sgm(ClientGM::AddItemToInventoryClientSync(add));
                conn.send(OutMessage::SubjectGameMessage(gm))
            },
            _ => Ok(()),
        }
    }

    /// Takes note that the player equips an item. The loadout is fixed, so nothing changes.
    pub fn on_equip_inventory(
        &mut self,
        _msg: &EquipInventory,
        _game_object: &mut GameObject,
        _state: &mut State,
        _conn: &mut Connection,
    ) -> (r: Res<()>)
        ensures
            r == Ok::<(), Error>(()),
            *final(self) == *old(self),
            final(_game_object)@ == old(_game_object)@,
            final(_state)@ == old(_state)@,
            final(_conn)@ == old(_conn)@,
    {
        Ok(())
    }

    /// Reacts to a game message: only a request to equip an item concerns an inventory.
    pub fn on_game_message(
        &mut self,
        msg: &ServerGM,
        game_object: &mut GameObject,
        state: &mut State,
        conn: &mut Connection,
    ) -> (r: Res<()>)
        ensures
            r == Ok::<(), Error>(()),
            *final(self) == *old(self),
            final(game_object)@ == old(game_object)@,
            final(state)@ == old(state)@,
            final(conn)@ == old(conn)@,
    {
        match msg {
            ServerGM::EquipInventory(x) => self.on_equip_inventory(x, game_object, state, conn),
            _ => Ok(()),
        }
    }
}

/// The inventory's part of a character's saved data: the two equipped items.
pub const INVENTORY_XML: &'static str =
    "<inv><items><in t=\"0\"><i l=\"4106\" id=\"1152921510436607008\" s=\"0\" eq=\"1\"/><i l=\"2524\" id=\"1152921510436607009\" s=\"1\" eq=\"1\"/></in></items></inv>";

} // verus!
