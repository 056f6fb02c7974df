//! Entities of the game and the bookkeeping kept for each of them.

use crate::model::IPoint;
use vstd::prelude::*;

verus! {

/// The kinds of entity.
#[derive(Clone, Copy, Debug, PartialEq, Eq, Structural, Hash)]
pub enum EntityType {
    Player,
}

/// The key data of a slot in a slot map.
#[derive(Clone, Copy, Debug, PartialEq, Eq, Structural, Hash)]
pub struct SlotMapKeyData {
    pub index: usize,
}

/// An entity: its kind and the slot that holds it.
#[derive(Clone, Copy, Debug, PartialEq, Eq, Structural, Hash)]
pub enum Entity {
    Player(SlotMapKeyData),
}

/// The key of an entity's location.
#[derive(Clone, Copy, Debug, PartialEq, Eq, Structural, Hash)]
pub struct LocationKey {
    pub index: usize,
}

impl Entity {
    /// The entity of the given kind held in the given slot.
    pub open spec fn of_parts(entity_type: EntityType, key_data: SlotMapKeyData) -> Entity {
        match entity_type {
            EntityType::Player => Entity::Player(key_data),
        }
    }

    /// The slot that holds the entity.
    pub open spec fn key_data(self) -> SlotMapKeyData {
        match self {
            Entity::Player(k) => k,
        }
    }

    /// The slot that holds the entity.
    pub fn borrow(&self) -> (k: &SlotMapKeyData)
        ensures
            *k == self.key_data(),
    {
        match self {
            Entity::Player(slot_key) => slot_key,
        }
    }
}

impl From<(EntityType, SlotMapKeyData)> for Entity {
    fn from(params: (EntityType, SlotMapKeyData)) -> (e: Entity) {
        let (entity_type, key_data) = params;
        match entity_type {
            EntityType::Player => Entity::Player(key_data),
        }
    }
}

impl vstd::std_specs::convert::FromSpecImpl<(EntityType, SlotMapKeyData)> for Entity {
    open spec fn obeys_from_spec() -> bool {
        true
    }

    open spec fn from_spec(params: (EntityType, SlotMapKeyData)) -> Entity {
        Entity::of_parts(params.0, params.1)
    }
}

/// What is kept for each entity: its kind, the entity itself and the key of
/// its location, once they are known.
#[derive(Clone, Copy, Debug, PartialEq, Eq, Structural, Hash)]
pub struct EntityData {
    pub entity_type: EntityType,
    pub entity: Option<Entity>,
    pub location_key: Option<LocationKey>,
}

impl EntityData {
    /// The data of a new entity of the given kind: neither the entity nor
    /// its location key is known yet.
    pub fn default_for_type(entity_type: EntityType) -> (d: EntityData)
        ensures
            d.entity_type == entity_type,
            d.entity is None,
            d.location_key is None,
    {
        EntityData { entity_type, entity: None, location_key: None }
    }
}

/// The player entity and the key of its location.
#[derive(Clone, Copy, Debug, PartialEq, Eq, Structural, Hash)]
pub struct Player {
    pub entity: Entity,
    pub location_key: LocationKey,
}

impl Player {
    /// The player described by a player's entity data, whose entity and
    /// location key must both be known.
    pub fn from_entity_data(entity_data: &EntityData) -> (p: Player)
        requires
            entity_data.entity_type == EntityType::Player,
            entity_data.entity is Some,
            entity_data.location_key is Some,
        ensures
            p.entity == entity_data.entity->Some_0,
            p.location_key == entity_data.location_key->Some_0,
    {
        Player {
            entity: entity_data.entity.unwrap(),
            location_key: entity_data.location_key.unwrap(),
        }
    }
}

/// A message sent to an entity.
#[derive(Clone, Copy, Debug, PartialEq, Eq, Structural)]
pub enum EntityMessage {
    EnteredViewport,
    ExitedViewport,
    GoalSet(IPoint),
}

} // verus!
