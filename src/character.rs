//! The values that characterize a creature: statistics, statuses and abilities.

use crate::ordered_map::Replica;
use vstd::prelude::*;

verus! {

/// A named numeric quality of a character.
#[derive(Clone, Copy, Debug, PartialEq, Eq, Structural)]
pub struct Statistic {
    pub id: u32,
    pub value: u32,
}

impl Statistic {
    pub fn new(id: u32, value: u32) -> (r: Self)
        ensures
            r.id == id,
            r.value == value,
    {
        Statistic { id, value }
    }

    pub fn value(&self) -> (r: u32)
        ensures
            r == self.value,
    {
        self.value
    }

    pub fn set_value(&mut self, value: u32)
        ensures
            *final(self) == (Statistic { value, ..*old(self) }),
    {
        self.value = value;
    }
}

/// A status applied to a character, with its effect and remaining duration.
#[derive(Clone, Copy, Debug, PartialEq, Eq, Structural)]
pub struct AppliedStatus {
    pub id: u32,
    pub effect: u32,
    pub duration: Option<u32>,
}

impl AppliedStatus {
    pub fn new(id: u32, effect: u32, duration: Option<u32>) -> (r: Self)
        ensures
            r.id == id,
            r.effect == effect,
            r.duration == duration,
    {
        AppliedStatus { id, effect, duration }
    }

    pub fn effect(&self) -> (r: u32)
        ensures
            r == self.effect,
    {
        self.effect
    }

    pub fn set_effect(&mut self, effect: u32)
        ensures
            *final(self) == (AppliedStatus { effect, ..*old(self) }),
    {
        self.effect = effect;
    }
}

/// An action that an actor can activate during its turn.
#[derive(Clone, Copy, Debug, PartialEq, Eq, Structural)]
pub struct Ability {
    pub id: u32,
    pub power: u32,
}

impl Ability {
    pub fn new(id: u32, power: u32) -> (r: Self)
        ensures
            r.id == id,
            r.power == power,
    {
        Ability { id, power }
    }

    pub fn power(&self) -> (r: u32)
        ensures
            r == self.power,
    {
        self.power
    }

    pub fn set_power(&mut self, power: u32)
        ensures
            *final(self) == (Ability { power, ..*old(self) }),
    {
        self.power = power;
    }
}

impl Replica for Statistic {
    open spec fn same(&self, other: &Self) -> bool {
        *self == *other
    }

    fn replica(&self) -> (r: Self) {
        *self
    }
}

impl Replica for AppliedStatus {
    open spec fn same(&self, other: &Self) -> bool {
        *self == *other
    }

    fn replica(&self) -> (r: Self) {
        *self
    }
}

impl Replica for Ability {
    open spec fn same(&self, other: &Self) -> bool {
        *self == *other
    }

    fn replica(&self) -> (r: Self) {
        *self
    }
}

/// The statistics that adding `s` one after the other gives, by id (a later
/// one replaces an earlier one with the same id).
pub open spec fn statistics_from(s: Seq<Statistic>) -> Map<u32, Statistic>
    decreases s.len(),
{
    if s.len() == 0 {
        Map::empty()
    } else {
        statistics_from(s.drop_last()).insert(s.last().id, s.last())
    }
}

/// The ids, in order of first appearance, that adding `s` one after the other gives.
pub open spec fn statistic_ids_from(s: Seq<Statistic>) -> Seq<u32>
    decreases s.len(),
{
    if s.len() == 0 {
        Seq::empty()
    } else {
        let p = statistic_ids_from(s.drop_last());
        if p.contains(s.last().id) {
            p
        } else {
            p.push(s.last().id)
        }
    }
}

/// The abilities that adding `s` one after the other gives, by id.
pub open spec fn abilities_from(s: Seq<Ability>) -> Map<u32, Ability>
    decreases s.len(),
{
    if s.len() == 0 {
        Map::empty()
    } else {
        abilities_from(s.drop_last()).insert(s.last().id, s.last())
    }
}

/// The ids, in order of first appearance, that adding `s` one after the other gives.
pub open spec fn ability_ids_from(s: Seq<Ability>) -> Seq<u32>
    decreases s.len(),
{
    if s.len() == 0 {
        Seq::empty()
    } else {
        let p = ability_ids_from(s.drop_last());
        if p.contains(s.last().id) {
            p
        } else {
            p.push(s.last().id)
        }
    }
}

} // verus!
