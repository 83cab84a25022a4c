//! Events: the only way in which a battle changes.

use crate::battle::Battle;
use crate::creature::{ConvertCreature, CreateCreature, RemoveCreature};
use crate::error::BattleError;
use crate::rules::BattleRules;
use crate::round::StartTurn;
use crate::team::CreateTeam;
use vstd::prelude::*;

verus! {

/// Points of the pipeline at which the teams' objectives are evaluated.
#[derive(Clone, Copy, Debug, PartialEq, Eq, Structural)]
pub enum Checkpoint {
    TurnEnd,
}

/// The kind of an event, stable across replays.
#[derive(Clone, Copy, Debug, PartialEq, Eq, Structural)]
pub enum EventKind {
    CreateTeam,
    CreateCreature,
    ConvertCreature,
    RemoveCreature,
    StartTurn,
}

/// One intended change of a battle.
#[derive(Clone, Copy, Debug, PartialEq, Eq, Structural)]
pub enum Event {
    CreateTeam(CreateTeam),
    CreateCreature(CreateCreature),
    ConvertCreature(ConvertCreature),
    RemoveCreature(RemoveCreature),
    StartTurn(StartTurn),
}

impl Event {
    pub open spec fn kind_of(&self) -> EventKind {
        match self {
            Event::CreateTeam(_) => EventKind::CreateTeam,
            Event::CreateCreature(_) => EventKind::CreateCreature,
            Event::ConvertCreature(_) => EventKind::ConvertCreature,
            Event::RemoveCreature(_) => EventKind::RemoveCreature,
            Event::StartTurn(_) => EventKind::StartTurn,
        }
    }

    pub fn kind(&self) -> (r: EventKind)
        ensures
            r == self.kind_of(),
    {
        match self {
            Event::CreateTeam(_) => EventKind::CreateTeam,
            Event::CreateCreature(_) => EventKind::CreateCreature,
            Event::ConvertCreature(_) => EventKind::ConvertCreature,
            Event::RemoveCreature(_) => EventKind::RemoveCreature,
            Event::StartTurn(_) => EventKind::StartTurn,
        }
    }

    /// Whether the event may be applied to the battle as it stands.
    pub open spec fn valid<R: BattleRules>(&self, b: Battle<R>) -> bool {
        match self {
            Event::CreateTeam(e) => e.valid(b),
            Event::CreateCreature(e) => e.valid(b),
            Event::ConvertCreature(e) => e.valid(b),
            Event::RemoveCreature(e) => e.valid(b),
            Event::StartTurn(e) => e.valid(b),
        }
    }

    /// The error of a rejected event.
    pub open spec fn rejected_with<R: BattleRules>(&self, b: Battle<R>, e: BattleError) -> bool {
        match self {
            Event::CreateTeam(x) => x.rejected_with(b, e),
            Event::CreateCreature(x) => x.rejected_with(b, e),
            Event::ConvertCreature(x) => x.rejected_with(b, e),
            Event::RemoveCreature(x) => x.rejected_with(b, e),
            Event::StartTurn(x) => x.rejected_with(b, e),
        }
    }

    /// What applying the event does to the battle and to the queue.
    pub open spec fn applied<R: BattleRules>(
        &self,
        o: Battle<R>,
        n: Battle<R>,
        q0: Seq<Event>,
        q1: Seq<Event>,
    ) -> bool {
        match self {
            Event::CreateTeam(x) => x.applied(o, n, q0, q1),
            Event::CreateCreature(x) => x.applied(o, n, q0, q1),
            Event::ConvertCreature(x) => x.applied(o, n, q0, q1),
            Event::RemoveCreature(x) => x.applied(o, n, q0, q1),
            Event::StartTurn(x) => x.applied(o, n, q0, q1),
        }
    }

    /// Events whose application calls no rule hook, and so queues nothing.
    pub open spec fn sets_off_nothing(&self) -> bool {
        self is CreateTeam || self is ConvertCreature || self is StartTurn
    }

    /// Checks the event against the battle without changing it.
    pub fn verify<R: BattleRules>(&self, battle: &Battle<R>) -> (r: Result<(), BattleError>)
        requires
            battle.wf(),
        ensures
            r is Ok <==> self.valid(*battle),
            r matches Err(e) ==> self.rejected_with(*battle, e),
    {
        match self {
            Event::CreateTeam(e) => e.verify(battle),
            Event::CreateCreature(e) => e.verify(battle),
            Event::ConvertCreature(e) => e.verify(battle),
            Event::RemoveCreature(e) => e.verify(battle),
            Event::StartTurn(e) => e.verify(battle),
        }
    }

    /// Applies a verified event; the events it sets off go to the end of `queue`.
    pub fn apply<R: BattleRules>(&self, battle: &mut Battle<R>, queue: &mut Vec<Event>)
        requires
            old(battle).wf(),
            self.valid(*old(battle)),
        ensures
            final(battle).wf(),
            self.applied(*old(battle), *final(battle), old(queue)@, final(queue)@),
            final(battle).history_view() == old(battle).history_view(),
    {
        match self {
            Event::CreateTeam(e) => e.apply(battle, queue),
            Event::CreateCreature(e) => e.apply(battle, queue),
            Event::ConvertCreature(e) => e.apply(battle, queue),
            Event::RemoveCreature(e) => e.apply(battle, queue),
            Event::StartTurn(e) => e.apply(battle, queue),
        }
    }
}

} // verus!
