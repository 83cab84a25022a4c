//! Turn bookkeeping: which actors take part in the turn order, and who acts now.

use crate::battle::Battle;
use crate::entity::EntityId;
use crate::error::BattleError;
use crate::event::Event;
use crate::ordered_map::Replica;
use crate::rules::BattleRules;
use vstd::prelude::*;

verus! {

/// Whether a turn is in progress, and for which entities.
#[derive(Clone, Debug, PartialEq, Eq)]
pub enum TurnState {
    Ready,
    Started(Vec<EntityId>),
}

impl TurnState {
    /// True when a turn is in progress and `e` is one of its actors.
    pub open spec fn acting(&self, e: EntityId) -> bool {
        &&& self is Started
        &&& self->Started_0@.contains(e)
    }

    pub fn is_acting(&self, e: EntityId) -> (r: bool)
        ensures
            r == self.acting(e),
    {
        match self {
            TurnState::Ready => false,
            TurnState::Started(v) => contains_entity(v, e),
        }
    }
}

fn contains_entity(v: &Vec<EntityId>, e: EntityId) -> (r: bool)
    ensures
        r == v@.contains(e),
{
    let mut i: usize = 0;
    while i < v.len()
        invariant
            i <= v@.len(),
            forall|j: int| 0 <= j < i ==> v@[j] != e,
        decreases v@.len() - i,
    {
        if v[i] == e {
            assert(v@[i as int] == e);
            return true;
        }
        i = i + 1;
    }
    false
}

/// The turn-order side of a battle: the actors known to it, in order of
/// arrival, and the state of the current turn.
pub struct Rounds {
    actors: Vec<EntityId>,
    state: TurnState,
}

impl Rounds {
    pub closed spec fn actors(&self) -> Seq<EntityId> {
        self.actors@
    }

    pub closed spec fn turn(&self) -> TurnState {
        self.state
    }

    pub fn new() -> (r: Self)
        ensures
            r.actors() == Seq::<EntityId>::empty(),
            r.turn() == TurnState::Ready,
    {
        Rounds { actors: Vec::new(), state: TurnState::Ready }
    }

    /// The number of actors in the turn order.
    pub fn actor_count(&self) -> (r: usize)
        ensures
            r == self.actors().len(),
    {
        self.actors.len()
    }

    pub fn state(&self) -> (r: &TurnState)
        ensures
            *r == self.turn(),
    {
        &self.state
    }

    pub fn set_state(&mut self, state: TurnState)
        ensures
            final(self).turn() == state,
            final(self).actors() == old(self).actors(),
    {
        self.state = state;
    }

    /// Replaces the turn order.
    pub fn set_order(&mut self, order: Vec<EntityId>)
        ensures
            final(self).actors() == order@,
            final(self).turn() == old(self).turn(),
    {
        self.actors = order;
    }

    /// Takes a new actor into the turn order, after the others.
    pub fn on_actor_added(&mut self, e: EntityId)
        ensures
            final(self).actors() == old(self).actors().push(e),
            final(self).turn() == old(self).turn(),
    {
        self.actors.push(e);
    }

    /// Drops an actor from the turn order; the others keep their order.
    pub fn on_actor_removed(&mut self, e: EntityId)
        ensures
            final(self).actors() == old(self).actors().remove_value(e),
            final(self).turn() == old(self).turn(),
    {
        let mut i: usize = 0;
        while i < self.actors.len()
            invariant
                i <= self.actors@.len(),
                self.actors@ == old(self).actors@,
                self.state == old(self).state,
                forall|j: int| 0 <= j < i ==> self.actors@[j] != e,
            decreases self.actors@.len() - i,
        {
            if self.actors[i] == e {
                proof {
                    let s = self.actors@;
                    s.index_of_first_ensures(e);
                    assert(s.contains(e));
                }
                self.actors.remove(i);
                return;
            }
            i = i + 1;
        }
        proof {
            old(self).actors@.index_of_first_ensures(e);
        }
    }
}

/// Event to start a turn, with one creature acting.
#[derive(Clone, Copy, Debug, PartialEq, Eq, Structural)]
pub struct StartTurn {
    pub id: u32,
}

impl StartTurn {
    /// Returns the id of the creature that will act.
    pub fn id(&self) -> (r: u32)
        ensures
            r == self.id,
    {
        self.id
    }

    /// No turn is in progress and the creature exists.
    pub open spec fn valid<R: BattleRules>(&self, b: Battle<R>) -> bool {
        &&& b.rounds_view().turn() == TurnState::Ready
        &&& b.entities_view().creatures_map().contains_key(self.id)
    }

    /// The error of a rejected turn start.
    pub open spec fn rejected_with<R: BattleRules>(&self, b: Battle<R>, e: BattleError) -> bool {
        if b.rounds_view().turn() != TurnState::Ready {
            e == BattleError::TurnInProgress
        } else {
            e == BattleError::CreatureNotFound(self.id)
        }
    }

    /// What applying the turn start does: the creature is the only actor of
    /// the turn; nothing else changes and no event is queued.
    pub open spec fn applied<R: BattleRules>(
        &self,
        o: Battle<R>,
        n: Battle<R>,
        q0: Seq<Event>,
        q1: Seq<Event>,
    ) -> bool {
        &&& (n.rounds_view().turn() matches TurnState::Started(v) && v@ == seq![
            EntityId::Creature(self.id),
        ])
        &&& n.rounds_view().actors() == o.rounds_view().actors()
        &&& n.entities_view() == o.entities_view()
        &&& n.space_view() == o.space_view()
        &&& n.rules_view() == o.rules_view()
        &&& n.created() == o.created()
        &&& q1 == q0
    }

    pub fn verify<R: BattleRules>(&self, battle: &Battle<R>) -> (r: Result<(), BattleError>)
        requires
            battle.wf(),
        ensures
            r is Ok <==> self.valid(*battle),
            r matches Err(e) ==> self.rejected_with(*battle, e),
    {
        match battle.rounds().state() {
            TurnState::Ready => {},
            TurnState::Started(_) => {
                return Err(BattleError::TurnInProgress);
            },
        }
        if battle.entities().creature(self.id).is_none() {
            return Err(BattleError::CreatureNotFound(self.id));
        }
        Ok(())
    }

    /// Starts the turn with the creature as its only actor.
    pub fn apply<R: BattleRules>(&self, battle: &mut Battle<R>, queue: &mut Vec<Event>)
        requires
            old(battle).wf(),
            self.valid(*old(battle)),
        ensures
            final(battle).wf(),
            self.applied(*old(battle), *final(battle), old(queue)@, final(queue)@),
            final(battle).history_view() == old(battle).history_view(),
    {
        let mut actors: Vec<EntityId> = Vec::new();
        actors.push(EntityId::Creature(self.id));
        battle.rounds_mut().set_state(TurnState::Started(actors));
    }
}

} // verus!

verus! {

fn copy_entities(v: &Vec<EntityId>) -> (r: Vec<EntityId>)
    ensures
        r@ == v@,
{
    let mut r: Vec<EntityId> = Vec::new();
    let mut i: usize = 0;
    while i < v.len()
        invariant
            i <= v@.len(),
            r@ == v@.subrange(0, i as int),
        decreases v@.len() - i,
    {
        r.push(v[i]);
        i = i + 1;
        assert(r@ =~= v@.subrange(0, i as int));
    }
    assert(r@ =~= v@);
    r
}

impl Replica for TurnState {
    open spec fn same(&self, other: &Self) -> bool {
        match (self, other) {
            (TurnState::Ready, TurnState::Ready) => true,
            (TurnState::Started(a), TurnState::Started(b)) => a@ == b@,
            _ => false,
        }
    }

    fn replica(&self) -> (r: Self) {
        match self {
            TurnState::Ready => TurnState::Ready,
            TurnState::Started(v) => TurnState::Started(copy_entities(v)),
        }
    }
}

impl Replica for Rounds {
    open spec fn same(&self, other: &Self) -> bool {
        &&& self.actors() == other.actors()
        &&& self.turn().same(&other.turn())
    }

    fn replica(&self) -> (r: Self) {
        Rounds { actors: copy_entities(&self.actors), state: self.state.replica() }
    }
}

} // verus!
