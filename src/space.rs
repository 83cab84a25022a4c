//! The spatial ledger: which entity occupies which position.

use crate::entity::EntityId;
use crate::ordered_map::{OrderedMap, Replica};
use vstd::prelude::*;

verus! {

/// A request to take a position.
#[derive(Clone, Copy, Debug, PartialEq, Eq, Structural)]
pub enum PositionClaim {
    /// A new entity enters the battle.
    Spawn(EntityId),
    /// An entity leaves the position it holds (the second field).
    Movement(EntityId, u32),
}

impl PositionClaim {
    pub open spec fn entity(&self) -> EntityId {
        match self {
            PositionClaim::Spawn(e) => *e,
            PositionClaim::Movement(e, _) => *e,
        }
    }
}

/// Why the ledger refused a claim.
#[derive(Clone, Copy, Debug, PartialEq, Eq, Structural)]
pub enum SpaceError {
    /// The position is held by this other entity.
    PositionOccupied(u32, EntityId),
}

/// The ledger of occupied positions.
pub struct Space {
    occupied: OrderedMap<EntityId>,
}

impl Space {
    /// Each occupied position, with the entity that holds it.
    pub closed spec fn occupants(&self) -> Map<u32, EntityId> {
        self.occupied@
    }

    pub closed spec fn wf(&self) -> bool {
        self.occupied.wf()
    }

    /// True when `claim` may take `position`: it is free, or held by the
    /// claiming entity itself.
    pub open spec fn claim_allowed(&self, claim: PositionClaim, position: u32) -> bool {
        !self.occupants().contains_key(position) || self.occupants()[position] == claim.entity()
    }

    pub fn new() -> (r: Self)
        ensures
            r.wf(),
            r.occupants() == Map::<u32, EntityId>::empty(),
    {
        Space { occupied: OrderedMap::new() }
    }

    /// The entity that holds `position`, if any.
    pub fn occupant(&self, position: u32) -> (r: Option<EntityId>)
        requires
            self.wf(),
        ensures
            r == (if self.occupants().contains_key(position) {
                Some(self.occupants()[position])
            } else {
                None
            }),
    {
        match self.occupied.get(position) {
            Some(e) => Some(*e),
            None => None,
        }
    }

    /// Checks, without changing anything, whether `claim` may take `position`.
    pub fn check_move(&self, claim: PositionClaim, position: u32) -> (r: Result<(), SpaceError>)
        requires
            self.wf(),
        ensures
            r is Ok <==> self.claim_allowed(claim, position),
            r matches Err(SpaceError::PositionOccupied(p, e)) ==> p == position
                && e == self.occupants()[position],
    {
        match self.occupied.get(position) {
            Some(e) => {
                if *e == claim_entity(claim) {
                    Ok(())
                } else {
                    Err(SpaceError::PositionOccupied(position, *e))
                }
            },
            None => Ok(()),
        }
    }

    /// Commits a claim: a spawn takes `position`; a movement leaves the
    /// position it held and takes `position`, if one is given.
    pub fn move_entity(&mut self, claim: PositionClaim, position: Option<u32>)
        requires
            old(self).wf(),
        ensures
            final(self).wf(),
            final(self).occupants() == match claim {
                PositionClaim::Spawn(e) => match position {
                    Some(p) => old(self).occupants().insert(p, e),
                    None => old(self).occupants(),
                },
                PositionClaim::Movement(e, from) => match position {
                    Some(p) => old(self).occupants().remove(from).insert(p, e),
                    None => old(self).occupants().remove(from),
                },
            },
    {
        match claim {
            PositionClaim::Spawn(e) => {
                if let Some(p) = position {
                    self.occupied.insert(p, e);
                }
            },
            PositionClaim::Movement(e, from) => {
                self.occupied.remove(from);
                if let Some(p) = position {
                    self.occupied.insert(p, e);
                }
            },
        }
    }
}

fn claim_entity(claim: PositionClaim) -> (r: EntityId)
    ensures
        r == claim.entity(),
{
    match claim {
        PositionClaim::Spawn(e) => e,
        PositionClaim::Movement(e, _) => e,
    }
}

} // verus!

verus! {

impl Replica for Space {
    closed spec fn same(&self, other: &Self) -> bool {
        self.occupied.same(&other.occupied)
    }

    fn replica(&self) -> (r: Self) {
        Space { occupied: self.occupied.replica() }
    }
}

impl Space {
    /// A ledger and its replica hold the same claims.
    pub proof fn lemma_same(&self, other: &Self)
        requires
            self.wf(),
            self.same(other),
        ensures
            other.wf(),
            other.occupants() == self.occupants(),
    {
        self.occupied.lemma_same_entries(&other.occupied, 0);
        assert forall|p: u32| #[trigger] self.occupants().contains_key(p) implies other.occupants()[p]
            == self.occupants()[p] by {
            self.occupied.lemma_same_entries(&other.occupied, p);
        }
        assert(self.occupants() =~= other.occupants());
    }
}

} // verus!
