//! Identities of the things that live in a battle.

use crate::ordered_map::Replica;
use vstd::prelude::*;

verus! {

/// Id of an entity, tagged with the kind of entity it names.
#[derive(Clone, Copy, Debug, PartialEq, Eq, Structural)]
pub enum EntityId {
    Creature(u32),
    Object(u32),
}

/// Ways in which an entity can leave or return to the battle.
#[derive(Clone, Copy, Debug, PartialEq, Eq, Structural)]
pub enum Transmutation {
    Removal,
}

impl Replica for EntityId {
    open spec fn same(&self, other: &Self) -> bool {
        *self == *other
    }

    fn replica(&self) -> (r: Self) {
        *self
    }
}

} // verus!
