//! The battle: its state, its rules, and the pipeline through which events
//! are verified and applied.

use crate::entities::Entities;
use crate::error::BattleError;
use crate::event::Event;
use crate::ordered_map::Replica;
use crate::round::Rounds;
use crate::rules::BattleRules;
use crate::space::Space;
use vstd::prelude::*;

verus! {

/// The most events that one submission may apply, its cascade included.
pub const CASCADE_LIMIT: u64 = 65536;

/// A battle: teams and creatures, the positions they hold, the turn state,
/// the rules that govern them, and the events applied so far.
pub struct Battle<R: BattleRules> {
    entities: Entities,
    space: Space,
    rounds: Rounds,
    rules: R,
    creatures_created: u64,
    history: Vec<Event>,
}

impl<R: BattleRules> Battle<R> {
    pub closed spec fn entities_view(&self) -> Entities {
        self.entities
    }

    pub closed spec fn space_view(&self) -> Space {
        self.space
    }

    pub closed spec fn rounds_view(&self) -> Rounds {
        self.rounds
    }

    pub closed spec fn rules_view(&self) -> R {
        self.rules
    }

    /// How many creatures were created so far.
    pub closed spec fn created(&self) -> u64 {
        self.creatures_created
    }

    /// The events applied so far, in the order they were applied.
    pub closed spec fn history_view(&self) -> Seq<Event> {
        self.history@
    }

    /// `other` holds the same state and the same rules as `self`.
    pub open spec fn same_state(&self, other: &Self) -> bool {
        &&& self.entities_view().same(&other.entities_view())
        &&& self.space_view().same(&other.space_view())
        &&& self.rounds_view().same(&other.rounds_view())
        &&& self.rules_view() == other.rules_view()
        &&& self.created() == other.created()
        &&& self.history_view() == other.history_view()
    }

    pub open spec fn wf(&self) -> bool {
        &&& self.entities_view().wf()
        &&& self.space_view().wf()
    }

    /// A battle with no teams, no creatures and no turn in progress.
    pub fn new(rules: R) -> (r: Self)
        ensures
            r.wf(),
            r.entities_view().creatures_map() == Map::<u32, crate::creature::Creature>::empty(),
            r.entities_view().teams_map() == Map::<u32, crate::team::Team>::empty(),
            r.space_view().occupants() == Map::<u32, crate::entity::EntityId>::empty(),
            r.rounds_view().turn() == crate::round::TurnState::Ready,
            r.rounds_view().actors() == Seq::<crate::entity::EntityId>::empty(),
            r.rules_view() == rules,
            r.created() == 0,
            r.history_view() == Seq::<Event>::empty(),
    {
        Battle {
            entities: Entities::new(),
            space: Space::new(),
            rounds: Rounds::new(),
            rules,
            creatures_created: 0,
            history: Vec::new(),
        }
    }

    pub fn entities(&self) -> (r: &Entities)
        ensures
            *r == self.entities_view(),
    {
        &self.entities
    }

    pub fn space(&self) -> (r: &Space)
        ensures
            *r == self.space_view(),
    {
        &self.space
    }

    pub fn rounds(&self) -> (r: &Rounds)
        ensures
            *r == self.rounds_view(),
    {
        &self.rounds
    }

    pub fn rules(&self) -> (r: &R)
        ensures
            *r == self.rules_view(),
    {
        &self.rules
    }

    /// How many creatures were created so far.
    pub fn creatures_created(&self) -> (r: u64)
        ensures
            r == self.created(),
    {
        self.creatures_created
    }

    /// The number of events applied so far.
    pub fn history_len(&self) -> (r: usize)
        ensures
            r == self.history_view().len(),
    {
        self.history.len()
    }

    /// The event applied at position `i` of the history.
    pub fn history_at(&self, i: usize) -> (r: Event)
        requires
            i < self.history_view().len(),
        ensures
            r == self.history_view()[i as int],
    {
        self.history[i]
    }

    pub(crate) fn entities_mut(&mut self) -> (r: &mut Entities)
        ensures
            *r == old(self).entities_view(),
            final(self).entities_view() == *final(r),
            final(self).space_view() == old(self).space_view(),
            final(self).rounds_view() == old(self).rounds_view(),
            final(self).rules_view() == old(self).rules_view(),
            final(self).created() == old(self).created(),
            final(self).history_view() == old(self).history_view(),
    {
        &mut self.entities
    }

    /// Calls the round rules' turn-end hook for the creature `id`.
    pub(crate) fn end_turn_of(&mut self, id: u32)
        requires
            old(self).wf(),
            old(self).entities_view().creatures_map().contains_key(id),
        ensures
            final(self).rounds_view().actors() == old(self).rules_view().order_after_end(
                old(self).entities_view(),
                old(self).space_view(),
                old(self).entities_view().creatures_map()[id],
                old(self).rounds_view().actors(),
            ),
            final(self).rounds_view().turn() == old(self).rounds_view().turn(),
            final(self).entities_view() == old(self).entities_view(),
            final(self).space_view() == old(self).space_view(),
            final(self).rules_view() == old(self).rules_view(),
            final(self).created() == old(self).created(),
            final(self).history_view() == old(self).history_view(),
    {
        let creature = self.entities.creature(id).unwrap();
        self.rules.on_end(&self.entities, &self.space, creature, &mut self.rounds);
    }

    pub(crate) fn space_mut(&mut self) -> (r: &mut Space)
        ensures
            *r == old(self).space_view(),
            final(self).space_view() == *final(r),
            final(self).entities_view() == old(self).entities_view(),
            final(self).rounds_view() == old(self).rounds_view(),
            final(self).rules_view() == old(self).rules_view(),
            final(self).created() == old(self).created(),
            final(self).history_view() == old(self).history_view(),
    {
        &mut self.space
    }

    pub(crate) fn rounds_mut(&mut self) -> (r: &mut Rounds)
        ensures
            *r == old(self).rounds_view(),
            final(self).rounds_view() == *final(r),
            final(self).entities_view() == old(self).entities_view(),
            final(self).space_view() == old(self).space_view(),
            final(self).rules_view() == old(self).rules_view(),
            final(self).created() == old(self).created(),
            final(self).history_view() == old(self).history_view(),
    {
        &mut self.rounds
    }

    /// Counts one more created creature; the counter stops at its maximum.
    pub(crate) fn count_creature_created(&mut self)
        ensures
            final(self).created() == (if old(self).created() < u64::MAX {
                (old(self).created() + 1) as u64
            } else {
                old(self).created()
            }),
            final(self).entities_view() == old(self).entities_view(),
            final(self).space_view() == old(self).space_view(),
            final(self).rounds_view() == old(self).rounds_view(),
            final(self).rules_view() == old(self).rules_view(),
            final(self).history_view() == old(self).history_view(),
    {
        self.creatures_created = self.creatures_created.saturating_add(1);
    }

    pub(crate) fn record(&mut self, event: Event)
        ensures
            final(self).history_view() == old(self).history_view().push(event),
            final(self).entities_view() == old(self).entities_view(),
            final(self).space_view() == old(self).space_view(),
            final(self).rounds_view() == old(self).rounds_view(),
            final(self).rules_view() == old(self).rules_view(),
            final(self).created() == old(self).created(),
    {
        self.history.push(event);
    }

    /// Submits an event. It is verified against the battle as it stands; if
    /// it is accepted, it is applied, and then each event that it set off is
    /// verified and processed in turn, each one with its whole cascade before
    /// the next. A rejected event leaves the battle untouched; a rejected
    /// event of the cascade, or a cascade longer than `CASCADE_LIMIT` events,
    /// puts the battle back to the state it had before the submission.
    pub fn process(&mut self, event: Event) -> (r: Result<(), BattleError>)
        requires
            old(self).wf(),
        ensures
            final(self).wf(),
            final(self).rules_view() == old(self).rules_view(),
            !event.valid(*old(self)) ==> (r matches Err(e) && event.rejected_with(*old(self), e))
                && *final(self) == *old(self),
            event.valid(*old(self)) && event.sets_off_nothing() ==> r is Ok && event.applied(
                *old(self),
                *final(self),
                Seq::<Event>::empty(),
                Seq::<Event>::empty(),
            ) && final(self).history_view() == old(self).history_view().push(event),
            event.valid(*old(self)) && r is Err ==> old(self).same_state(&*final(self)),
            r is Ok ==> event.valid(*old(self)) && final(self).history_view().len() > old(
                self,
            ).history_view().len() && final(self).history_view()[old(
                self,
            ).history_view().len() as int] == event,
            r == Err::<(), BattleError>(BattleError::CascadeTooLong) ==> event.valid(*old(self))
                && !event.sets_off_nothing(),
    {
        match event.verify(self) {
            Ok(()) => {},
            Err(e) => {
                return Err(e);
            },
        }
        let entities = self.entities.replica();
        let space = self.space.replica();
        let rounds = self.rounds.replica();
        let created = self.creatures_created;
        let history = copy_events(&self.history);
        proof {
            self.entities.lemma_same(&entities);
            self.space.lemma_same(&space);
        }
        match self.run(event, CASCADE_LIMIT - 1) {
            Ok(_) => Ok(()),
            Err(e) => {
                // An event of the cascade was rejected: go back to the state
                // before the submission.
                self.entities = entities;
                self.space = space;
                self.rounds = rounds;
                self.creatures_created = created;
                self.history = history;
                Err(e)
            },
        }
    }

    /// Applies a verified event, records it, and processes the events that
    /// it set off with `fuel` events to spend; returns the fuel left.
    fn run(&mut self, event: Event, fuel: u64) -> (r: Result<u64, BattleError>)
        requires
            old(self).wf(),
            event.valid(*old(self)),
        ensures
            final(self).wf(),
            final(self).rules_view() == old(self).rules_view(),
            final(self).history_view().len() > old(self).history_view().len(),
            final(self).history_view()[old(self).history_view().len() as int] == event,
            final(self).history_view().subrange(0, old(self).history_view().len() as int) == old(
                self,
            ).history_view(),
            r matches Ok(left) ==> left <= fuel && final(self).history_view().len() == old(
                self,
            ).history_view().len() + 1 + (fuel - left),
            r == Err::<u64, BattleError>(BattleError::CascadeTooLong) ==> final(self).history_view().len() == old(self).history_view().len() + 1 + fuel,
            r is Err && r->Err_0 != BattleError::CascadeTooLong ==> exists|ev: Event, b: Battle<R>|
                #[trigger] ev.rejected_with(b, r->Err_0) && !ev.valid(b),
            event.sets_off_nothing() ==> r == Ok::<u64, BattleError>(fuel) && event.applied(
                *old(self),
                *final(self),
                Seq::<Event>::empty(),
                Seq::<Event>::empty(),
            ) && final(self).history_view() == old(self).history_view().push(event),
        decreases fuel, 1nat,
    {
        let mut queue: Vec<Event> = Vec::new();
        event.apply(self, &mut queue);
        self.record(event);
        let ghost mid = *self;
        let r = self.cascade(queue, fuel);
        proof {
            let n = old(self).history_view().len() as int;
            let m = mid.history_view().len() as int;
            assert(self.history_view().subrange(0, m) == mid.history_view());
            assert(self.history_view()[n] == self.history_view().subrange(0, m)[n]);
            assert(self.history_view().subrange(0, n) =~= mid.history_view().subrange(0, n));
        }
        r
    }

    /// Processes queued events in order: each one is verified when its turn
    /// comes and, if accepted, applied and followed by its own cascade before
    /// the next one starts. Each applied event spends one unit of `fuel`;
    /// returns the fuel left. Stops at the first rejected event, or with
    /// `CascadeTooLong` when an accepted event finds no fuel left.
    pub fn cascade(&mut self, queue: Vec<Event>, fuel: u64) -> (r: Result<u64, BattleError>)
        requires
            old(self).wf(),
        ensures
            final(self).wf(),
            final(self).rules_view() == old(self).rules_view(),
            final(self).history_view().len() >= old(self).history_view().len(),
            final(self).history_view().subrange(0, old(self).history_view().len() as int) == old(
                self,
            ).history_view(),
            queue@.len() == 0 ==> r == Ok::<u64, BattleError>(fuel) && *final(self) == *old(self),
            queue@.len() > 0 && !queue@[0].valid(*old(self)) ==> (r matches Err(e)
                && queue@[0].rejected_with(*old(self), e)) && *final(self) == *old(self),
            queue@.len() > 0 && queue@[0].valid(*old(self)) && fuel == 0 ==> r == Err::<
                u64,
                BattleError,
            >(BattleError::CascadeTooLong) && *final(self) == *old(self),
            queue@.len() > 0 && queue@[0].valid(*old(self)) && fuel > 0 ==> final(self).history_view().len() > old(self).history_view().len() && final(self).history_view()[old(self).history_view().len() as int] == queue@[0],
            r matches Ok(left) ==> left <= fuel && final(self).history_view().len() == old(
                self,
            ).history_view().len() + (fuel - left),
            r == Err::<u64, BattleError>(BattleError::CascadeTooLong) ==> final(self).history_view().len() == old(self).history_view().len() + fuel,
            r is Err && r->Err_0 != BattleError::CascadeTooLong ==> exists|ev: Event, b: Battle<R>|
                #[trigger] ev.rejected_with(b, r->Err_0) && !ev.valid(b),
        decreases fuel, 0nat,
    {
        let ghost start = *self;
        let mut left: u64 = fuel;
        let mut i: usize = 0;
        while i < queue.len()
            invariant
                self.wf(),
                self.rules_view() == start.rules_view(),
                start == *old(self),
                i <= queue@.len(),
                left <= fuel,
                self.history_view().len() == start.history_view().len() + (fuel - left),
                self.history_view().subrange(0, start.history_view().len() as int)
                    == start.history_view(),
                i == 0 ==> *self == start && left == fuel,
                i > 0 ==> queue@[0].valid(start) && fuel > 0 && self.history_view().len()
                    > start.history_view().len() && self.history_view()[start.history_view().len() as int]
                    == queue@[0],
            decreases queue@.len() - i,
        {
            let next = queue[i];
            match next.verify(self) {
                Ok(()) => {},
                Err(e) => {
                    proof {
                        assert(next.rejected_with(*self, e) && !next.valid(*self));
                    }
                    return Err(e);
                },
            }
            if left == 0 {
                return Err(BattleError::CascadeTooLong);
            }
            left = left - 1;
            let ghost before = *self;
            match self.run(next, left) {
                Ok(l) => {
                    left = l;
                },
                Err(e) => {
                    proof {
                        assert(self.history_view().subrange(0, start.history_view().len() as int)
                            =~= before.history_view().subrange(0, start.history_view().len() as int));
                    }
                    return Err(e);
                },
            }
            proof {
                assert(self.history_view().subrange(0, start.history_view().len() as int)
                    =~= before.history_view().subrange(0, start.history_view().len() as int));
            }
            i = i + 1;
        }
        Ok(left)
    }
}


fn copy_events(v: &Vec<Event>) -> (r: Vec<Event>)
    ensures
        r@ == v@,
{
    let mut r: Vec<Event> = Vec::new();
    let mut i: usize = 0;
    while i < v.len()
        invariant
            i <= v@.len(),
            r@ == v@.subrange(0, i as int),
        decreases v@.len() - i,
    {
        r.push(v[i]);
        i = i + 1;
        assert(r@ =~= v@.subrange(0, i as int));
    }
    assert(r@ =~= v@);
    r
}

} // verus!
