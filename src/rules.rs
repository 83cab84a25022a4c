//! The rules of a battle: the decisions and hooks that the core calls at
//! fixed points but leaves to the game to define.

use crate::character::{Ability, Statistic};
use crate::creature::Creature;
use crate::entities::Entities;
use crate::entity::{EntityId, Transmutation};
use crate::event::{Checkpoint, Event};
use crate::round::Rounds;
use crate::space::Space;
use crate::team::{EntityAddition, Team};
use vstd::prelude::*;

verus! {

/// The rules that a game gives to a battle, fixed for the battle's lifetime.
///
/// Each hook is a function of its arguments, stated by a spec function, so
/// that replaying the same events on the same state gives the same battle.
pub trait BattleRules: Sized {
    /// Whether `team` takes in an entity for the reason `addition`.
    spec fn admits(&self, entities: Entities, team: Team, addition: EntityAddition) -> bool;

    /// The reason given when `team` refuses the entity.
    spec fn refusal(&self, entities: Entities, team: Team, addition: EntityAddition) -> Seq<char>;

    /// The statistics generated for a new creature from `seed`.
    spec fn statistics_for(&self, seed: Option<u32>) -> Seq<Statistic>;

    /// The abilities generated for a new creature from `seed`.
    spec fn abilities_for(&self, seed: Option<u32>) -> Seq<Ability>;

    /// The events set off when `creature` joins a battle whose registry is `entities`.
    spec fn added_follow_ups(&self, entities: Entities, creature: Creature) -> Seq<Event>;

    /// The events set off when `creature` has left the registry `entities`.
    spec fn transmuted_follow_ups(
        &self,
        entities: Entities,
        creature: Creature,
        transmutation: Transmutation,
    ) -> Seq<Event>;

    /// The events that the teams' objectives call for at `checkpoint`.
    spec fn objective_events(&self, entities: Entities, checkpoint: Checkpoint) -> Seq<Event>;

    /// The turn order after `actor` ends its turn.
    spec fn order_after_end(
        &self,
        entities: Entities,
        space: Space,
        actor: Creature,
        order: Seq<EntityId>,
    ) -> Seq<EntityId>;

    /// Decides whether `team` takes in an entity; the error is the reason for a refusal.
    fn allow_new_entity(
        &self,
        entities: &Entities,
        team: &Team,
        addition: EntityAddition,
    ) -> (r: Result<(), String>)
        ensures
            r is Ok <==> self.admits(*entities, *team, addition),
            r matches Err(s) ==> s@ == self.refusal(*entities, *team, addition),
    ;

    /// Statistics for a new creature, drawn from `seed` when one is given.
    fn generate_statistics(&self, seed: &Option<u32>) -> (r: Vec<Statistic>)
        ensures
            r@ == self.statistics_for(*seed),
    ;

    /// Abilities for a new creature, drawn from `seed` when one is given.
    fn generate_abilities(&self, seed: &Option<u32>) -> (r: Vec<Ability>)
        ensures
            r@ == self.abilities_for(*seed),
    ;

    /// Called when a creature joins the battle; returns the events it sets off.
    fn on_character_added(&self, entities: &Entities, creature: &Creature) -> (r: Vec<Event>)
        ensures
            r@ == self.added_follow_ups(*entities, *creature),
    ;

    /// Called when a creature leaves the battle; returns the events it sets off.
    fn on_character_transmuted(
        &self,
        entities: &Entities,
        creature: &Creature,
        transmutation: Transmutation,
    ) -> (r: Vec<Event>)
        ensures
            r@ == self.transmuted_follow_ups(*entities, *creature, transmutation),
    ;

    /// Evaluates the teams' objectives at `checkpoint`; returns the events
    /// that follow from them.
    fn check_objectives(&self, entities: &Entities, checkpoint: Checkpoint) -> (r: Vec<Event>)
        ensures
            r@ == self.objective_events(*entities, checkpoint),
    ;

    /// Called when `actor` ends its turn; may rearrange the turn order.
    fn on_end(&self, entities: &Entities, space: &Space, actor: &Creature, rounds: &mut Rounds)
        ensures
            final(rounds).actors() == self.order_after_end(
                *entities,
                *space,
                *actor,
                old(rounds).actors(),
            ),
            final(rounds).turn() == old(rounds).turn(),
    ;
}

/// Rules that admit every entity, generate nothing and set off no events.
pub struct EmptyRules {}

impl EmptyRules {
    pub fn new() -> (r: Self) {
        EmptyRules {  }
    }
}

impl BattleRules for EmptyRules {
    open spec fn admits(&self, entities: Entities, team: Team, addition: EntityAddition) -> bool {
        true
    }

    open spec fn refusal(&self, entities: Entities, team: Team, addition: EntityAddition) -> Seq<
        char,
    > {
        Seq::empty()
    }

    open spec fn statistics_for(&self, seed: Option<u32>) -> Seq<Statistic> {
        Seq::empty()
    }

    open spec fn abilities_for(&self, seed: Option<u32>) -> Seq<Ability> {
        Seq::empty()
    }

    open spec fn added_follow_ups(&self, entities: Entities, creature: Creature) -> Seq<Event> {
        Seq::empty()
    }

    open spec fn transmuted_follow_ups(
        &self,
        entities: Entities,
        creature: Creature,
        transmutation: Transmutation,
    ) -> Seq<Event> {
        Seq::empty()
    }

    open spec fn objective_events(&self, entities: Entities, checkpoint: Checkpoint) -> Seq<Event> {
        Seq::empty()
    }

    open spec fn order_after_end(
        &self,
        entities: Entities,
        space: Space,
        actor: Creature,
        order: Seq<EntityId>,
    ) -> Seq<EntityId> {
        order
    }

    fn allow_new_entity(
        &self,
        entities: &Entities,
        team: &Team,
        addition: EntityAddition,
    ) -> (r: Result<(), String>) {
        Ok(())
    }

    fn generate_statistics(&self, seed: &Option<u32>) -> (r: Vec<Statistic>) {
        Vec::new()
    }

    fn generate_abilities(&self, seed: &Option<u32>) -> (r: Vec<Ability>) {
        Vec::new()
    }

    fn on_character_added(&self, entities: &Entities, creature: &Creature) -> (r: Vec<Event>) {
        Vec::new()
    }

    fn on_character_transmuted(
        &self,
        entities: &Entities,
        creature: &Creature,
        transmutation: Transmutation,
    ) -> (r: Vec<Event>) {
        Vec::new()
    }

    fn check_objectives(&self, entities: &Entities, checkpoint: Checkpoint) -> (r: Vec<Event>) {
        Vec::new()
    }

    fn on_end(&self, entities: &Entities, space: &Space, actor: &Creature, rounds: &mut Rounds) {
    }
}

} // verus!

verus! {

/// The events that the arrival of creature `id` sets off, by the table `s`
/// of (creature, event) pairs, in table order.
pub open spec fn summoned_by(s: Seq<(u32, Event)>, id: u32) -> Seq<Event>
    decreases s.len(),
{
    if s.len() == 0 {
        Seq::empty()
    } else {
        let p = summoned_by(s.drop_last(), id);
        if s.last().0 == id {
            p.push(s.last().1)
        } else {
            p
        }
    }
}

/// Rules given as tables: teams that refuse everyone (with one reason),
/// the statistics and abilities of every new creature (a seed sets all
/// their values), events set off by the arrival of given creatures, and
/// events that the objectives call for at the end of a turn.
pub struct TableRules {
    pub closed_teams: Vec<u32>,
    pub reason: String,
    pub statistics: Vec<Statistic>,
    pub abilities: Vec<Ability>,
    pub follow_ups: Vec<(u32, Event)>,
    pub turn_end_events: Vec<Event>,
}

impl BattleRules for TableRules {
    open spec fn admits(&self, entities: Entities, team: Team, addition: EntityAddition) -> bool {
        !self.closed_teams@.contains(team.tid())
    }

    open spec fn refusal(&self, entities: Entities, team: Team, addition: EntityAddition) -> Seq<
        char,
    > {
        self.reason@
    }

    open spec fn statistics_for(&self, seed: Option<u32>) -> Seq<Statistic> {
        match seed {
            None => self.statistics@,
            Some(v) => self.statistics@.map_values(|x: Statistic| Statistic { value: v, ..x }),
        }
    }

    open spec fn abilities_for(&self, seed: Option<u32>) -> Seq<Ability> {
        match seed {
            None => self.abilities@,
            Some(v) => self.abilities@.map_values(|x: Ability| Ability { power: v, ..x }),
        }
    }

    open spec fn added_follow_ups(&self, entities: Entities, creature: Creature) -> Seq<Event> {
        summoned_by(self.follow_ups@, creature.cid())
    }

    open spec fn transmuted_follow_ups(
        &self,
        entities: Entities,
        creature: Creature,
        transmutation: Transmutation,
    ) -> Seq<Event> {
        Seq::empty()
    }

    open spec fn objective_events(&self, entities: Entities, checkpoint: Checkpoint) -> Seq<Event> {
        self.turn_end_events@
    }

    open spec fn order_after_end(
        &self,
        entities: Entities,
        space: Space,
        actor: Creature,
        order: Seq<EntityId>,
    ) -> Seq<EntityId> {
        order
    }

    fn allow_new_entity(
        &self,
        entities: &Entities,
        team: &Team,
        addition: EntityAddition,
    ) -> (r: Result<(), String>) {
        let t = team.id();
        let mut i: usize = 0;
        while i < self.closed_teams.len()
            invariant
                i <= self.closed_teams@.len(),
                t == team.tid(),
                forall|j: int| 0 <= j < i ==> self.closed_teams@[j] != t,
            decreases self.closed_teams@.len() - i,
        {
            if self.closed_teams[i] == t {
                assert(self.closed_teams@[i as int] == t);
                return Err(self.reason.clone());
            }
            i = i + 1;
        }
        Ok(())
    }

    fn generate_statistics(&self, seed: &Option<u32>) -> (r: Vec<Statistic>) {
        let mut r: Vec<Statistic> = Vec::new();
        let mut i: usize = 0;
        while i < self.statistics.len()
            invariant
                i <= self.statistics@.len(),
                r@ == self.statistics_for(*seed).subrange(0, i as int),
            decreases self.statistics@.len() - i,
        {
            let s = self.statistics[i];
            match seed {
                Some(v) => r.push(Statistic { value: *v, ..s }),
                None => r.push(s),
            }
            i = i + 1;
            assert(r@ =~= self.statistics_for(*seed).subrange(0, i as int));
        }
        assert(r@ =~= self.statistics_for(*seed));
        r
    }

    fn generate_abilities(&self, seed: &Option<u32>) -> (r: Vec<Ability>) {
        let mut r: Vec<Ability> = Vec::new();
        let mut i: usize = 0;
        while i < self.abilities.len()
            invariant
                i <= self.abilities@.len(),
                r@ == self.abilities_for(*seed).subrange(0, i as int),
            decreases self.abilities@.len() - i,
        {
            let a = self.abilities[i];
            match seed {
                Some(v) => r.push(Ability { power: *v, ..a }),
                None => r.push(a),
            }
            i = i + 1;
            assert(r@ =~= self.abilities_for(*seed).subrange(0, i as int));
        }
        assert(r@ =~= self.abilities_for(*seed));
        r
    }

    fn on_character_added(&self, entities: &Entities, creature: &Creature) -> (r: Vec<Event>) {
        let id = creature.id();
        let mut r: Vec<Event> = Vec::new();
        let mut i: usize = 0;
        while i < self.follow_ups.len()
            invariant
                i <= self.follow_ups@.len(),
                r@ == summoned_by(self.follow_ups@.subrange(0, i as int), id),
            decreases self.follow_ups@.len() - i,
        {
            proof {
                assert(self.follow_ups@.subrange(0, i + 1).drop_last() =~= self.follow_ups@.subrange(
                    0,
                    i as int,
                ));
            }
            let (who, event) = self.follow_ups[i];
            if who == id {
                r.push(event);
            }
            i = i + 1;
        }
        assert(self.follow_ups@.subrange(0, self.follow_ups@.len() as int) =~= self.follow_ups@);
        r
    }

    fn on_character_transmuted(
        &self,
        entities: &Entities,
        creature: &Creature,
        transmutation: Transmutation,
    ) -> (r: Vec<Event>) {
        Vec::new()
    }

    fn check_objectives(&self, entities: &Entities, checkpoint: Checkpoint) -> (r: Vec<Event>) {
        let mut r: Vec<Event> = Vec::new();
        let mut i: usize = 0;
        while i < self.turn_end_events.len()
            invariant
                i <= self.turn_end_events@.len(),
                r@ == self.turn_end_events@.subrange(0, i as int),
            decreases self.turn_end_events@.len() - i,
        {
            r.push(self.turn_end_events[i]);
            i = i + 1;
            assert(r@ =~= self.turn_end_events@.subrange(0, i as int));
        }
        assert(r@ =~= self.turn_end_events@);
        r
    }

    fn on_end(&self, entities: &Entities, space: &Space, actor: &Creature, rounds: &mut Rounds) {
    }
}

} // verus!
