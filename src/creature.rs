//! Creatures, the acting entities of a battle, and the events that create,
//! convert and remove them.

use crate::battle::Battle;
use crate::character::{
    Ability, AppliedStatus, Statistic, abilities_from, ability_ids_from, statistic_ids_from,
    statistics_from,
};
use crate::entity::{EntityId, Transmutation};
use crate::error::BattleError;
use crate::event::{Checkpoint, Event, EventKind};
use crate::ordered_map::{OrderedMap, Replica};
use crate::round::TurnState;
use crate::rules::BattleRules;
use crate::space::{PositionClaim, SpaceError};
use crate::team::EntityAddition;
use vstd::prelude::*;

verus! {

/// A creature: it belongs to a team, holds a position, and carries its
/// statistics, statuses and abilities, each keyed by id in insertion order.
pub struct Creature {
    id: u32,
    team_id: u32,
    position: u32,
    statistics: OrderedMap<Statistic>,
    statuses: OrderedMap<AppliedStatus>,
    abilities: OrderedMap<Ability>,
}

impl Creature {
    pub closed spec fn cid(&self) -> u32 {
        self.id
    }

    pub closed spec fn team(&self) -> u32 {
        self.team_id
    }

    pub closed spec fn pos(&self) -> u32 {
        self.position
    }

    pub closed spec fn statistics_map(&self) -> Map<u32, Statistic> {
        self.statistics@
    }

    pub closed spec fn statuses_map(&self) -> Map<u32, AppliedStatus> {
        self.statuses@
    }

    pub closed spec fn abilities_map(&self) -> Map<u32, Ability> {
        self.abilities@
    }

    /// Statistic ids in insertion order.
    pub closed spec fn statistic_ids(&self) -> Seq<u32> {
        self.statistics.keys()
    }

    /// Status ids in insertion order.
    pub closed spec fn status_ids(&self) -> Seq<u32> {
        self.statuses.keys()
    }

    /// Ability ids in insertion order.
    pub closed spec fn ability_ids(&self) -> Seq<u32> {
        self.abilities.keys()
    }

    pub closed spec fn wf(&self) -> bool {
        &&& self.statistics.wf()
        &&& self.statuses.wf()
        &&& self.abilities.wf()
    }

    /// A creature with no statistics, statuses or abilities.
    pub fn new(id: u32, team_id: u32, position: u32) -> (r: Self)
        ensures
            r.wf(),
            r.cid() == id,
            r.team() == team_id,
            r.pos() == position,
            r.statistics_map() == Map::<u32, Statistic>::empty(),
            r.statistic_ids() == Seq::<u32>::empty(),
            r.ability_ids() == Seq::<u32>::empty(),
            r.statuses_map() == Map::<u32, AppliedStatus>::empty(),
            r.abilities_map() == Map::<u32, Ability>::empty(),
    {
        Creature {
            id,
            team_id,
            position,
            statistics: OrderedMap::new(),
            statuses: OrderedMap::new(),
            abilities: OrderedMap::new(),
        }
    }

    pub fn id(&self) -> (r: u32)
        ensures
            r == self.cid(),
    {
        self.id
    }

    /// The creature's id, tagged as a creature's.
    pub fn entity_id(&self) -> (r: EntityId)
        ensures
            r == EntityId::Creature(self.cid()),
    {
        EntityId::Creature(self.id)
    }

    pub fn team_id(&self) -> (r: u32)
        ensures
            r == self.team(),
    {
        self.team_id
    }

    pub(crate) fn set_team_id(&mut self, id: u32)
        ensures
            final(self).team() == id,
            final(self).cid() == old(self).cid(),
            final(self).pos() == old(self).pos(),
            final(self).wf() == old(self).wf(),
            final(self).statistics_map() == old(self).statistics_map(),
            final(self).statuses_map() == old(self).statuses_map(),
            final(self).abilities_map() == old(self).abilities_map(),
    {
        self.team_id = id;
    }

    pub fn position(&self) -> (r: u32)
        ensures
            r == self.pos(),
    {
        self.position
    }

    pub fn set_position(&mut self, position: u32)
        ensures
            final(self).pos() == position,
            final(self).cid() == old(self).cid(),
            final(self).team() == old(self).team(),
            final(self).wf() == old(self).wf(),
            final(self).statistics_map() == old(self).statistics_map(),
            final(self).statuses_map() == old(self).statuses_map(),
            final(self).abilities_map() == old(self).abilities_map(),
    {
        self.position = position;
    }

    /// The statistics, in insertion order.
    pub fn statistics(&self) -> (r: &OrderedMap<Statistic>)
        requires
            self.wf(),
        ensures
            r.wf(),
            r@ == self.statistics_map(),
    {
        &self.statistics
    }

    /// The statuses, in insertion order.
    pub fn statuses(&self) -> (r: &OrderedMap<AppliedStatus>)
        requires
            self.wf(),
        ensures
            r.wf(),
            r@ == self.statuses_map(),
    {
        &self.statuses
    }

    /// The abilities, in insertion order.
    pub fn abilities(&self) -> (r: &OrderedMap<Ability>)
        requires
            self.wf(),
        ensures
            r.wf(),
            r@ == self.abilities_map(),
    {
        &self.abilities
    }

    pub fn statistic(&self, id: u32) -> (r: Option<Statistic>)
        requires
            self.wf(),
        ensures
            r == (if self.statistics_map().contains_key(id) {
                Some(self.statistics_map()[id])
            } else {
                None
            }),
    {
        match self.statistics.get(id) {
            Some(s) => Some(*s),
            None => None,
        }
    }

    /// Mutable access to the statistic with this id, if any.
    pub fn statistic_mut(&mut self, id: u32) -> (r: Option<&mut Statistic>)
        requires
            old(self).wf(),
        ensures
            final(self).wf(),
            final(self).cid() == old(self).cid(),
            final(self).team() == old(self).team(),
            final(self).pos() == old(self).pos(),
            final(self).statuses_map() == old(self).statuses_map(),
            final(self).abilities_map() == old(self).abilities_map(),
            match r {
                Some(s) => old(self).statistics_map().contains_key(id) && *s == old(
                    self,
                ).statistics_map()[id] && final(self).statistics_map() == old(
                    self,
                ).statistics_map().insert(id, *final(s)),
                None => !old(self).statistics_map().contains_key(id) && final(self).statistics_map()
                    == old(self).statistics_map(),
            },
    {
        match self.statistics.index_of(id) {
            Some(i) => Some(self.statistics.value_mut_at(i)),
            None => None,
        }
    }

    /// Mutable access to the statistic at position `i` of the insertion order.
    pub fn statistic_mut_at(&mut self, i: usize) -> (r: &mut Statistic)
        requires
            old(self).wf(),
            i < old(self).statistic_ids().len(),
        ensures
            *r == old(self).statistics_map()[old(self).statistic_ids()[i as int]],
            final(self).wf(),
            final(self).statistic_ids() == old(self).statistic_ids(),
            final(self).statistics_map() == old(self).statistics_map().insert(old(self).statistic_ids()[i as int], *final(r)),
            final(self).cid() == old(self).cid(),
            final(self).team() == old(self).team(),
            final(self).pos() == old(self).pos(),
            final(self).statuses_map() == old(self).statuses_map(),
            final(self).abilities_map() == old(self).abilities_map(),
    {
        self.statistics.value_mut_at(i)
    }

    /// Mutable access to the status at position `i` of the insertion order.
    pub fn status_mut_at(&mut self, i: usize) -> (r: &mut AppliedStatus)
        requires
            old(self).wf(),
            i < old(self).status_ids().len(),
        ensures
            *r == old(self).statuses_map()[old(self).status_ids()[i as int]],
            final(self).wf(),
            final(self).status_ids() == old(self).status_ids(),
            final(self).statuses_map() == old(self).statuses_map().insert(old(self).status_ids()[i as int], *final(r)),
            final(self).cid() == old(self).cid(),
            final(self).team() == old(self).team(),
            final(self).pos() == old(self).pos(),
            final(self).statistics_map() == old(self).statistics_map(),
            final(self).abilities_map() == old(self).abilities_map(),
    {
        self.statuses.value_mut_at(i)
    }

    /// Mutable access to the ability at position `i` of the insertion order.
    pub fn ability_mut_at(&mut self, i: usize) -> (r: &mut Ability)
        requires
            old(self).wf(),
            i < old(self).ability_ids().len(),
        ensures
            *r == old(self).abilities_map()[old(self).ability_ids()[i as int]],
            final(self).wf(),
            final(self).ability_ids() == old(self).ability_ids(),
            final(self).abilities_map() == old(self).abilities_map().insert(old(self).ability_ids()[i as int], *final(r)),
            final(self).cid() == old(self).cid(),
            final(self).team() == old(self).team(),
            final(self).pos() == old(self).pos(),
            final(self).statistics_map() == old(self).statistics_map(),
            final(self).statuses_map() == old(self).statuses_map(),
    {
        self.abilities.value_mut_at(i)
    }

    /// Adds a statistic under its own id, replacing (in place) and returning
    /// the one that had that id.
    pub fn add_statistic(&mut self, statistic: Statistic) -> (r: Option<Statistic>)
        requires
            old(self).wf(),
        ensures
            final(self).wf(),
            final(self).statistics_map() == old(self).statistics_map().insert(statistic.id, statistic),
            final(self).statistic_ids() == (if old(self).statistic_ids().contains(statistic.id) {
                old(self).statistic_ids()
            } else {
                old(self).statistic_ids().push(statistic.id)
            }),
            final(self).ability_ids() == old(self).ability_ids(),
            r == (if old(self).statistics_map().contains_key(statistic.id) {
                Some(old(self).statistics_map()[statistic.id])
            } else {
                None
            }),
            final(self).cid() == old(self).cid(),
            final(self).team() == old(self).team(),
            final(self).pos() == old(self).pos(),
            final(self).statuses_map() == old(self).statuses_map(),
            final(self).abilities_map() == old(self).abilities_map(),
    {
        self.statistics.insert(statistic.id, statistic)
    }

    pub fn remove_statistic(&mut self, id: u32) -> (r: Option<Statistic>)
        requires
            old(self).wf(),
        ensures
            final(self).wf(),
            final(self).statistics_map() == old(self).statistics_map().remove(id),
            r == (if old(self).statistics_map().contains_key(id) {
                Some(old(self).statistics_map()[id])
            } else {
                None
            }),
            final(self).cid() == old(self).cid(),
            final(self).team() == old(self).team(),
            final(self).pos() == old(self).pos(),
            final(self).statuses_map() == old(self).statuses_map(),
            final(self).abilities_map() == old(self).abilities_map(),
    {
        self.statistics.remove(id)
    }

    /// The number of statistics.
    pub fn statistics_count(&self) -> (r: usize)
        requires
            self.wf(),
        ensures
            r == self.statistics_map().len(),
    {
        self.statistics.len()
    }

    pub fn status(&self, id: u32) -> (r: Option<AppliedStatus>)
        requires
            self.wf(),
        ensures
            r == (if self.statuses_map().contains_key(id) {
                Some(self.statuses_map()[id])
            } else {
                None
            }),
    {
        match self.statuses.get(id) {
            Some(s) => Some(*s),
            None => None,
        }
    }

    /// Mutable access to the status with this id, if any.
    pub fn status_mut(&mut self, id: u32) -> (r: Option<&mut AppliedStatus>)
        requires
            old(self).wf(),
        ensures
            final(self).wf(),
            final(self).cid() == old(self).cid(),
            final(self).team() == old(self).team(),
            final(self).pos() == old(self).pos(),
            final(self).statistics_map() == old(self).statistics_map(),
            final(self).abilities_map() == old(self).abilities_map(),
            match r {
                Some(s) => old(self).statuses_map().contains_key(id) && *s == old(
                    self,
                ).statuses_map()[id] && final(self).statuses_map() == old(
                    self,
                ).statuses_map().insert(id, *final(s)),
                None => !old(self).statuses_map().contains_key(id) && final(self).statuses_map()
                    == old(self).statuses_map(),
            },
    {
        match self.statuses.index_of(id) {
            Some(i) => Some(self.statuses.value_mut_at(i)),
            None => None,
        }
    }

    /// Adds a status under its own id, replacing (in place) and returning the
    /// one that had that id.
    pub fn add_status(&mut self, status: AppliedStatus) -> (r: Option<AppliedStatus>)
        requires
            old(self).wf(),
        ensures
            final(self).wf(),
            final(self).statuses_map() == old(self).statuses_map().insert(status.id, status),
            r == (if old(self).statuses_map().contains_key(status.id) {
                Some(old(self).statuses_map()[status.id])
            } else {
                None
            }),
            final(self).cid() == old(self).cid(),
            final(self).team() == old(self).team(),
            final(self).pos() == old(self).pos(),
            final(self).statistics_map() == old(self).statistics_map(),
            final(self).abilities_map() == old(self).abilities_map(),
    {
        self.statuses.insert(status.id, status)
    }

    pub fn remove_status(&mut self, id: u32) -> (r: Option<AppliedStatus>)
        requires
            old(self).wf(),
        ensures
            final(self).wf(),
            final(self).statuses_map() == old(self).statuses_map().remove(id),
            r == (if old(self).statuses_map().contains_key(id) {
                Some(old(self).statuses_map()[id])
            } else {
                None
            }),
            final(self).cid() == old(self).cid(),
            final(self).team() == old(self).team(),
            final(self).pos() == old(self).pos(),
            final(self).statistics_map() == old(self).statistics_map(),
            final(self).abilities_map() == old(self).abilities_map(),
    {
        self.statuses.remove(id)
    }

    pub fn ability(&self, id: u32) -> (r: Option<Ability>)
        requires
            self.wf(),
        ensures
            r == (if self.abilities_map().contains_key(id) {
                Some(self.abilities_map()[id])
            } else {
                None
            }),
    {
        match self.abilities.get(id) {
            Some(a) => Some(*a),
            None => None,
        }
    }

    /// Mutable access to the ability with this id, if any.
    pub fn ability_mut(&mut self, id: u32) -> (r: Option<&mut Ability>)
        requires
            old(self).wf(),
        ensures
            final(self).wf(),
            final(self).cid() == old(self).cid(),
            final(self).team() == old(self).team(),
            final(self).pos() == old(self).pos(),
            final(self).statuses_map() == old(self).statuses_map(),
            final(self).statistics_map() == old(self).statistics_map(),
            match r {
                Some(s) => old(self).abilities_map().contains_key(id) && *s == old(
                    self,
                ).abilities_map()[id] && final(self).abilities_map() == old(
                    self,
                ).abilities_map().insert(id, *final(s)),
                None => !old(self).abilities_map().contains_key(id) && final(self).abilities_map()
                    == old(self).abilities_map(),
            },
    {
        match self.abilities.index_of(id) {
            Some(i) => Some(self.abilities.value_mut_at(i)),
            None => None,
        }
    }

    /// Adds an ability under its own id, replacing (in place) and returning
    /// the one that had that id.
    pub fn add_ability(&mut self, ability: Ability) -> (r: Option<Ability>)
        requires
            old(self).wf(),
        ensures
            final(self).wf(),
            final(self).abilities_map() == old(self).abilities_map().insert(ability.id, ability),
            final(self).ability_ids() == (if old(self).ability_ids().contains(ability.id) {
                old(self).ability_ids()
            } else {
                old(self).ability_ids().push(ability.id)
            }),
            final(self).statistic_ids() == old(self).statistic_ids(),
            r == (if old(self).abilities_map().contains_key(ability.id) {
                Some(old(self).abilities_map()[ability.id])
            } else {
                None
            }),
            final(self).cid() == old(self).cid(),
            final(self).team() == old(self).team(),
            final(self).pos() == old(self).pos(),
            final(self).statistics_map() == old(self).statistics_map(),
            final(self).statuses_map() == old(self).statuses_map(),
    {
        self.abilities.insert(ability.id, ability)
    }

    pub fn remove_ability(&mut self, id: u32) -> (r: Option<Ability>)
        requires
            old(self).wf(),
        ensures
            final(self).wf(),
            final(self).abilities_map() == old(self).abilities_map().remove(id),
            r == (if old(self).abilities_map().contains_key(id) {
                Some(old(self).abilities_map()[id])
            } else {
                None
            }),
            final(self).cid() == old(self).cid(),
            final(self).team() == old(self).team(),
            final(self).pos() == old(self).pos(),
            final(self).statistics_map() == old(self).statistics_map(),
            final(self).statuses_map() == old(self).statuses_map(),
    {
        self.abilities.remove(id)
    }
}

} // verus!

verus! {

/// Event to create a new creature in a team, at a position.
#[derive(Clone, Copy, Debug, PartialEq, Eq, Structural)]
pub struct CreateCreature {
    pub id: u32,
    pub team_id: u32,
    pub position: u32,
    pub statistics_seed: Option<u32>,
    pub abilities_seed: Option<u32>,
}

impl CreateCreature {
    pub fn kind(&self) -> (r: EventKind)
        ensures
            r == EventKind::CreateCreature,
    {
        EventKind::CreateCreature
    }

    /// Returns the id of the creature to be created.
    pub fn id(&self) -> (r: u32)
        ensures
            r == self.id,
    {
        self.id
    }

    /// Returns the team id of the creature to be created.
    pub fn team_id(&self) -> (r: u32)
        ensures
            r == self.team_id,
    {
        self.team_id
    }

    /// Returns the position that the creature will take.
    pub fn position(&self) -> (r: u32)
        ensures
            r == self.position,
    {
        self.position
    }

    /// Returns the seed to generate the creature's statistics.
    pub fn statistics_seed(&self) -> (r: Option<u32>)
        ensures
            r == self.statistics_seed,
    {
        self.statistics_seed
    }

    /// Returns the seed to generate the creature's abilities.
    pub fn abilities_seed(&self) -> (r: Option<u32>)
        ensures
            r == self.abilities_seed,
    {
        self.abilities_seed
    }

    /// The team exists and its rules take a spawned creature, the id is
    /// free, and the ledger lets the new creature take the position.
    pub open spec fn valid<R: BattleRules>(&self, b: Battle<R>) -> bool {
        let e = b.entities_view();
        &&& e.teams_map().contains_key(self.team_id)
        &&& b.rules_view().admits(e, e.teams_map()[self.team_id], EntityAddition::CreatureSpawn)
        &&& !e.creatures_map().contains_key(self.id)
        &&& b.space_view().claim_allowed(
            PositionClaim::Spawn(EntityId::Creature(self.id)),
            self.position,
        )
    }

    /// The error of a rejected creation: the first check that fails, in
    /// the order of `verify`.
    pub open spec fn rejected_with<R: BattleRules>(&self, b: Battle<R>, e: BattleError) -> bool {
        let en = b.entities_view();
        let t = self.team_id;
        if !en.teams_map().contains_key(t) {
            e == BattleError::TeamNotFound(t)
        } else if !b.rules_view().admits(en, en.teams_map()[t], EntityAddition::CreatureSpawn) {
            e matches BattleError::NewCreatureUnaccepted(u, s) && u == t && s@ == b.rules_view().refusal(
                en,
                en.teams_map()[t],
                EntityAddition::CreatureSpawn,
            )
        } else if en.creatures_map().contains_key(self.id) {
            e == BattleError::DuplicatedCreature(self.id)
        } else {
            e == BattleError::PositionError(
                None,
                self.position,
                SpaceError::PositionOccupied(
                    self.position,
                    b.space_view().occupants()[self.position],
                ),
            )
        }
    }

    /// What applying the creation does to the battle `o`, giving `n`, and to
    /// the queue `q0`, giving `q1`.
    pub open spec fn applied<R: BattleRules>(
        &self,
        o: Battle<R>,
        n: Battle<R>,
        q0: Seq<Event>,
        q1: Seq<Event>,
    ) -> bool {
        let oe = o.entities_view();
        let ne = n.entities_view();
        let c = ne.creatures_map()[self.id];
        let t = self.team_id;
        let rules = o.rules_view();
        &&& ne.creatures_map() == oe.creatures_map().insert(self.id, c)
        &&& c.cid() == self.id
        &&& c.team() == t
        &&& c.pos() == self.position
        &&& c.statistics_map() == statistics_from(rules.statistics_for(self.statistics_seed))
        &&& c.statistic_ids() == statistic_ids_from(rules.statistics_for(self.statistics_seed))
        &&& c.abilities_map() == abilities_from(rules.abilities_for(self.abilities_seed))
        &&& c.ability_ids() == ability_ids_from(rules.abilities_for(self.abilities_seed))
        &&& c.statuses_map() == Map::<u32, AppliedStatus>::empty()
        &&& ne.creature_ids() == oe.creature_ids().push(self.id)
        &&& ne.teams_map().dom() == oe.teams_map().dom()
        &&& ne.teams_map()[t].members() == oe.teams_map()[t].members().push(self.id)
        &&& forall|u: u32| u != t ==> #[trigger] ne.teams_map()[u] == oe.teams_map()[u]
        &&& n.space_view().occupants() == o.space_view().occupants().insert(
            self.position,
            EntityId::Creature(self.id),
        )
        &&& n.rounds_view().actors() == o.rounds_view().actors().push(EntityId::Creature(self.id))
        &&& n.rounds_view().turn() == o.rounds_view().turn()
        &&& n.rules_view() == rules
        &&& n.created() == (if o.created() < u64::MAX {
            (o.created() + 1) as u64
        } else {
            o.created()
        })
        &&& q1 == q0 + rules.added_follow_ups(oe, c)
    }

    /// Creating a creature under the id of a live one is never valid: such an
    /// event is rejected and, being rejected, changes nothing.
    pub proof fn lemma_duplicate_rejected<R: BattleRules>(&self, b: Battle<R>)
        requires
            b.wf(),
            b.entities_view().creatures_map().contains_key(self.id),
        ensures
            !self.valid(b),
            !Event::CreateCreature(*self).valid(b),
    {
    }

    /// Checks the event against the battle, in this order: the team exists,
    /// its rules take the creature, the id is free, the position is free.
    pub fn verify<R: BattleRules>(&self, battle: &Battle<R>) -> (r: Result<(), BattleError>)
        requires
            battle.wf(),
        ensures
            r is Ok <==> self.valid(*battle),
            r matches Err(e) ==> self.rejected_with(*battle, e),
    {
        let entities = battle.entities();
        let team = match entities.team(self.team_id) {
            Some(t) => t,
            None => {
                return Err(BattleError::TeamNotFound(self.team_id));
            },
        };
        // Check if the team accepts a new creature.
        match battle.rules().allow_new_entity(entities, team, EntityAddition::CreatureSpawn) {
            Ok(()) => {},
            Err(cause) => {
                return Err(BattleError::NewCreatureUnaccepted(self.team_id, cause));
            },
        }
        // Check id duplication.
        if entities.creature(self.id).is_some() {
            return Err(BattleError::DuplicatedCreature(self.id));
        }
        // Check position.
        match battle.space().check_move(
            PositionClaim::Spawn(EntityId::Creature(self.id)),
            self.position,
        ) {
            Ok(()) => Ok(()),
            Err(e) => Err(BattleError::PositionError(None, self.position, e)),
        }
    }

    /// Creates the creature: generates its statistics and abilities, takes
    /// its position, enters it in the turn order, calls the rules' hook
    /// (whose events go to the end of `queue`), adds it to the registry and
    /// counts it.
    pub fn apply<R: BattleRules>(&self, battle: &mut Battle<R>, queue: &mut Vec<Event>)
        requires
            old(battle).wf(),
            self.valid(*old(battle)),
        ensures
            final(battle).wf(),
            self.applied(*old(battle), *final(battle), old(queue)@, final(queue)@),
            final(battle).history_view() == old(battle).history_view(),
    {
        // Statistics' and abilities' generation is influenced by the seeds, if present.
        let statistics = battle.rules().generate_statistics(&self.statistics_seed);
        let abilities = battle.rules().generate_abilities(&self.abilities_seed);
        let mut creature = Creature::new(self.id, self.team_id, self.position);
        let mut i: usize = 0;
        while i < statistics.len()
            invariant
                i <= statistics@.len(),
                creature.wf(),
                creature.cid() == self.id,
                creature.team() == self.team_id,
                creature.pos() == self.position,
                creature.statuses_map() == Map::<u32, AppliedStatus>::empty(),
                creature.abilities_map() == Map::<u32, Ability>::empty(),
                creature.ability_ids() == Seq::<u32>::empty(),
                creature.statistics_map() == statistics_from(statistics@.subrange(0, i as int)),
                creature.statistic_ids() == statistic_ids_from(statistics@.subrange(0, i as int)),
            decreases statistics@.len() - i,
        {
            proof {
                assert(statistics@.subrange(0, i + 1).drop_last() =~= statistics@.subrange(0, i as int));
            }
            creature.add_statistic(statistics[i]);
            i = i + 1;
        }
        proof {
            assert(statistics@.subrange(0, statistics@.len() as int) =~= statistics@);
        }
        let mut i: usize = 0;
        while i < abilities.len()
            invariant
                i <= abilities@.len(),
                creature.wf(),
                creature.cid() == self.id,
                creature.team() == self.team_id,
                creature.pos() == self.position,
                creature.statuses_map() == Map::<u32, AppliedStatus>::empty(),
                creature.statistics_map() == statistics_from(statistics@),
                creature.statistic_ids() == statistic_ids_from(statistics@),
                creature.abilities_map() == abilities_from(abilities@.subrange(0, i as int)),
                creature.ability_ids() == ability_ids_from(abilities@.subrange(0, i as int)),
            decreases abilities@.len() - i,
        {
            proof {
                assert(abilities@.subrange(0, i + 1).drop_last() =~= abilities@.subrange(0, i as int));
            }
            creature.add_ability(abilities[i]);
            i = i + 1;
        }
        proof {
            assert(abilities@.subrange(0, abilities@.len() as int) =~= abilities@);
        }
        // Take the position.
        battle.space_mut().move_entity(
            PositionClaim::Spawn(EntityId::Creature(self.id)),
            Some(self.position),
        );
        // Notify the turn order.
        battle.rounds_mut().on_actor_added(EntityId::Creature(self.id));
        // Invoke the rules' callback.
        let mut follow_ups = battle.rules().on_character_added(battle.entities(), &creature);
        queue.append(&mut follow_ups);
        // Add the creature to the registry.
        let added = battle.entities_mut().add_creature(creature);
        proof {
            assert(added is Ok);
        }
        battle.count_creature_created();
    }
}

} // verus!

verus! {

/// Event to move a creature from its current team to another one.
#[derive(Clone, Copy, Debug, PartialEq, Eq, Structural)]
pub struct ConvertCreature {
    pub creature_id: u32,
    pub team_id: u32,
}

impl ConvertCreature {
    pub fn kind(&self) -> (r: EventKind)
        ensures
            r == EventKind::ConvertCreature,
    {
        EventKind::ConvertCreature
    }

    /// Returns the id of the creature to be converted.
    pub fn creature_id(&self) -> (r: u32)
        ensures
            r == self.creature_id,
    {
        self.creature_id
    }

    /// Returns the id of the team that this creature should join.
    pub fn team_id(&self) -> (r: u32)
        ensures
            r == self.team_id,
    {
        self.team_id
    }

    /// The creature and the team exist, the creature is not already in the
    /// team, and the team's rules take it.
    pub open spec fn valid<R: BattleRules>(&self, b: Battle<R>) -> bool {
        let e = b.entities_view();
        &&& e.creatures_map().contains_key(self.creature_id)
        &&& e.teams_map().contains_key(self.team_id)
        &&& e.creatures_map()[self.creature_id].team() != self.team_id
        &&& b.rules_view().admits(
            e,
            e.teams_map()[self.team_id],
            EntityAddition::CreatureConversion(self.creature_id),
        )
    }

    /// The error of a rejected conversion: the first check that fails, in
    /// the order of `verify`.
    pub open spec fn rejected_with<R: BattleRules>(&self, b: Battle<R>, e: BattleError) -> bool {
        let en = b.entities_view();
        let c = self.creature_id;
        let t = self.team_id;
        if !en.creatures_map().contains_key(c) {
            e == BattleError::CreatureNotFound(c)
        } else if !en.teams_map().contains_key(t) {
            e == BattleError::TeamNotFound(t)
        } else if en.creatures_map()[c].team() == t {
            e == BattleError::InvalidCreatureConversion(t, c)
        } else {
            e matches BattleError::ConvertedCreatureUnaccepted(u, v, s) && u == t && v == c && s@
                == b.rules_view().refusal(
                en,
                en.teams_map()[t],
                EntityAddition::CreatureConversion(c),
            )
        }
    }

    /// What applying the conversion does: both teams and the creature's own
    /// team change together, nothing else does, and no event is queued.
    pub open spec fn applied<R: BattleRules>(
        &self,
        o: Battle<R>,
        n: Battle<R>,
        q0: Seq<Event>,
        q1: Seq<Event>,
    ) -> bool {
        let oe = o.entities_view();
        let ne = n.entities_view();
        let id = self.creature_id;
        let t = self.team_id;
        let c = oe.creatures_map()[id];
        let nc = ne.creatures_map()[id];
        let from = c.team();
        &&& ne.creatures_map().dom() == oe.creatures_map().dom()
        &&& forall|x: u32| x != id ==> #[trigger] ne.creatures_map()[x] == oe.creatures_map()[x]
        &&& nc.team() == t
        &&& nc.cid() == c.cid()
        &&& nc.pos() == c.pos()
        &&& nc.statistics_map() == c.statistics_map()
        &&& nc.statuses_map() == c.statuses_map()
        &&& nc.abilities_map() == c.abilities_map()
        &&& ne.teams_map().dom() == oe.teams_map().dom()
        &&& ne.teams_map()[from].members() == oe.teams_map()[from].members().remove_value(id)
        &&& !ne.teams_map()[from].members().contains(id)
        &&& ne.teams_map()[t].members() == oe.teams_map()[t].members().push(id)
        &&& ne.teams_map()[t].members().contains(id)
        &&& forall|u: u32| u != from && u != t ==> #[trigger] ne.teams_map()[u] == oe.teams_map()[u]
        &&& n.space_view() == o.space_view()
        &&& n.rounds_view() == o.rounds_view()
        &&& n.rules_view() == o.rules_view()
        &&& n.created() == o.created()
        &&& q1 == q0
    }

    /// Checks the event against the battle, in this order: the creature
    /// exists, the team exists, the team is not the creature's own, the
    /// team's rules take the creature.
    pub fn verify<R: BattleRules>(&self, battle: &Battle<R>) -> (r: Result<(), BattleError>)
        requires
            battle.wf(),
        ensures
            r is Ok <==> self.valid(*battle),
            r matches Err(e) ==> self.rejected_with(*battle, e),
    {
        let entities = battle.entities();
        let creature = match entities.creature(self.creature_id) {
            Some(c) => c,
            None => {
                return Err(BattleError::CreatureNotFound(self.creature_id));
            },
        };
        let team = match entities.team(self.team_id) {
            Some(t) => t,
            None => {
                return Err(BattleError::TeamNotFound(self.team_id));
            },
        };
        if team.id() == creature.team_id() {
            return Err(BattleError::InvalidCreatureConversion(self.team_id, self.creature_id));
        }
        match battle.rules().allow_new_entity(
            entities,
            team,
            EntityAddition::CreatureConversion(self.creature_id),
        ) {
            Ok(()) => Ok(()),
            Err(cause) => Err(
                BattleError::ConvertedCreatureUnaccepted(self.team_id, self.creature_id, cause),
            ),
        }
    }

    /// Moves the creature to the team: both teams' members and the
    /// creature's own team change together; nothing else does.
    pub fn apply<R: BattleRules>(&self, battle: &mut Battle<R>, queue: &mut Vec<Event>)
        requires
            old(battle).wf(),
            self.valid(*old(battle)),
        ensures
            final(battle).wf(),
            self.applied(*old(battle), *final(battle), old(queue)@, final(queue)@),
            final(battle).history_view() == old(battle).history_view(),
    {
        let r = battle.entities_mut().convert_creature(self.creature_id, self.team_id);
        proof {
            assert(r is Ok);
        }
    }
}

/// Event to remove a creature from the battle.
///
/// If the creature is acting in the current turn, the turn ends first. The
/// creature leaves its team and frees its position.
#[derive(Clone, Copy, Debug, PartialEq, Eq, Structural)]
pub struct RemoveCreature {
    pub id: u32,
}

impl RemoveCreature {
    pub fn kind(&self) -> (r: EventKind)
        ensures
            r == EventKind::RemoveCreature,
    {
        EventKind::RemoveCreature
    }

    /// Returns the id of the creature to be removed.
    pub fn id(&self) -> (r: u32)
        ensures
            r == self.id,
    {
        self.id
    }

    /// The creature exists; removal asks no rule.
    pub open spec fn valid<R: BattleRules>(&self, b: Battle<R>) -> bool {
        b.entities_view().creatures_map().contains_key(self.id)
    }

    /// The error of a rejected removal.
    pub open spec fn rejected_with<R: BattleRules>(&self, b: Battle<R>, e: BattleError) -> bool {
        e == BattleError::CreatureNotFound(self.id)
    }

    /// What applying the removal does. If the creature was acting, the turn
    /// ends first: the round rules rearrange the turn order, the objectives'
    /// events are queued and the turn state becomes ready. Then the creature
    /// leaves the registry and its team, the removal hook's events are
    /// queued, the creature leaves the turn order and its position is freed.
    pub open spec fn applied<R: BattleRules>(
        &self,
        o: Battle<R>,
        n: Battle<R>,
        q0: Seq<Event>,
        q1: Seq<Event>,
    ) -> bool {
        let oe = o.entities_view();
        let ne = n.entities_view();
        let c = oe.creatures_map()[self.id];
        let t = c.team();
        let p = c.pos();
        let e = EntityId::Creature(self.id);
        let rules = o.rules_view();
        let acting = o.rounds_view().turn().acting(e);
        let order = if acting {
            rules.order_after_end(oe, o.space_view(), c, o.rounds_view().actors())
        } else {
            o.rounds_view().actors()
        };
        let objectives = if acting {
            rules.objective_events(oe, Checkpoint::TurnEnd)
        } else {
            Seq::<Event>::empty()
        };
        &&& ne.creatures_map() == oe.creatures_map().remove(self.id)
        &&& !ne.creatures_map().contains_key(self.id)
        &&& ne.teams_map().dom() == oe.teams_map().dom()
        &&& ne.teams_map()[t].members() == oe.teams_map()[t].members().remove_value(self.id)
        &&& !ne.teams_map()[t].members().contains(self.id)
        &&& forall|u: u32| u != t ==> #[trigger] ne.teams_map()[u] == oe.teams_map()[u]
        &&& n.space_view().occupants() == o.space_view().occupants().remove(p)
        &&& !n.space_view().occupants().contains_key(p)
        &&& forall|x: EntityId| #[trigger] n.space_view().claim_allowed(PositionClaim::Spawn(x), p)
        &&& n.rounds_view().turn() == (if acting {
            TurnState::Ready
        } else {
            o.rounds_view().turn()
        })
        &&& n.rounds_view().actors() == order.remove_value(e)
        &&& n.rules_view() == rules
        &&& n.created() == o.created()
        &&& q1 == q0 + objectives + rules.transmuted_follow_ups(ne, c, Transmutation::Removal)
    }

    pub fn verify<R: BattleRules>(&self, battle: &Battle<R>) -> (r: Result<(), BattleError>)
        requires
            battle.wf(),
        ensures
            r is Ok <==> self.valid(*battle),
            r matches Err(e) ==> self.rejected_with(*battle, e),
    {
        if battle.entities().creature(self.id).is_none() {
            return Err(BattleError::CreatureNotFound(self.id));
        }
        Ok(())
    }

    /// Removes the creature. If it acts in the current turn, the teams'
    /// objectives are checked at turn end (their events go to `queue`) and
    /// the turn state goes back to ready. Then the creature leaves the
    /// registry and its team, the rules' hook is called (its events go to
    /// `queue`), it leaves the turn order and its position is freed.
    pub fn apply<R: BattleRules>(&self, battle: &mut Battle<R>, queue: &mut Vec<Event>)
        requires
            old(battle).wf(),
            self.valid(*old(battle)),
        ensures
            final(battle).wf(),
            self.applied(*old(battle), *final(battle), old(queue)@, final(queue)@),
            final(battle).history_view() == old(battle).history_view(),
    {
        let entity = EntityId::Creature(self.id);
        let position = battle.entities().creature(self.id).unwrap().position();
        // End the current turn, if this creature was acting.
        if battle.rounds().state().is_acting(entity) {
            // Invoke the round rules' callback while the creature is registered.
            battle.end_turn_of(self.id);
            // Check teams' objectives.
            let mut follow_ups = battle.rules().check_objectives(
                battle.entities(),
                Checkpoint::TurnEnd,
            );
            queue.append(&mut follow_ups);
            battle.rounds_mut().set_state(TurnState::Ready);
        }
        // Remove the creature.
        let creature = match battle.entities_mut().remove_creature(self.id) {
            Ok(c) => c,
            Err(_) => {
                proof {
                    assert(false);
                }
                return;
            },
        };
        // Invoke the rules' callback.
        let mut follow_ups = battle.rules().on_character_transmuted(
            battle.entities(),
            &creature,
            Transmutation::Removal,
        );
        queue.append(&mut follow_ups);
        // Notify the turn order.
        battle.rounds_mut().on_actor_removed(entity);
        // Free the position.
        battle.space_mut().move_entity(PositionClaim::Movement(entity, position), None);
        proof {
            assert(final(queue)@ =~= old(queue)@ + (if old(battle).rounds_view().turn().acting(entity) {
                old(battle).rules_view().objective_events(old(battle).entities_view(), Checkpoint::TurnEnd)
            } else {
                Seq::<Event>::empty()
            }) + old(battle).rules_view().transmuted_follow_ups(battle.entities_view(), creature, Transmutation::Removal));
        }
    }
}

} // verus!

verus! {

impl CreateCreature {
    /// Returns a trigger for this event, with no seeds.
    pub fn trigger(id: u32, team_id: u32, position: u32) -> (r: CreateCreatureTrigger)
        ensures
            r.id == id,
            r.team_id == team_id,
            r.position == position,
            r.statistics_seed is None,
            r.abilities_seed is None,
    {
        CreateCreatureTrigger {
            id,
            team_id,
            position,
            statistics_seed: None,
            abilities_seed: None,
        }
    }
}

/// Builds and fires a `CreateCreature` event.
#[derive(Clone, Copy, Debug, PartialEq, Eq, Structural)]
pub struct CreateCreatureTrigger {
    pub id: u32,
    pub team_id: u32,
    pub position: u32,
    pub statistics_seed: Option<u32>,
    pub abilities_seed: Option<u32>,
}

impl CreateCreatureTrigger {
    /// Adds a seed to drive the generation of this creature's statistics.
    pub fn statistics_seed(self, seed: u32) -> (r: Self)
        ensures
            r == (CreateCreatureTrigger { statistics_seed: Some(seed), ..self }),
    {
        CreateCreatureTrigger { statistics_seed: Some(seed), ..self }
    }

    /// Adds a seed to drive the generation of this creature's abilities.
    pub fn abilities_seed(self, seed: u32) -> (r: Self)
        ensures
            r == (CreateCreatureTrigger { abilities_seed: Some(seed), ..self }),
    {
        CreateCreatureTrigger { abilities_seed: Some(seed), ..self }
    }

    /// The event that this trigger fires.
    pub open spec fn to_event(&self) -> Event {
        Event::CreateCreature(
            CreateCreature {
                id: self.id,
                team_id: self.team_id,
                position: self.position,
                statistics_seed: self.statistics_seed,
                abilities_seed: self.abilities_seed,
            },
        )
    }

    /// Returns a `CreateCreature` event.
    pub fn event(&self) -> (r: Event)
        ensures
            r == self.to_event(),
            r == Event::CreateCreature(
                CreateCreature {
                    id: self.id,
                    team_id: self.team_id,
                    position: self.position,
                    statistics_seed: self.statistics_seed,
                    abilities_seed: self.abilities_seed,
                },
            ),
    {
        Event::CreateCreature(
            CreateCreature {
                id: self.id,
                team_id: self.team_id,
                position: self.position,
                statistics_seed: self.statistics_seed,
                abilities_seed: self.abilities_seed,
            },
        )
    }

    /// Submits the event to the battle.
    pub fn fire<R: BattleRules>(&self, battle: &mut Battle<R>) -> (r: Result<(), BattleError>)
        requires
            old(battle).wf(),
        ensures
            final(battle).wf(),
            !self.to_event().valid(*old(battle)) ==> (r matches Err(e)
                && self.to_event().rejected_with(*old(battle), e)) && *final(battle) == *old(
                battle,
            ),
            self.to_event().valid(*old(battle)) && r is Err ==> old(battle).same_state(
                &*final(battle),
            ),
            r is Ok ==> self.to_event().valid(*old(battle)) && final(battle).history_view().len()
                > old(battle).history_view().len() && final(battle).history_view()[old(
                battle,
            ).history_view().len() as int] == self.to_event(),
    {
        battle.process(self.event())
    }
}

impl ConvertCreature {
    /// Returns a trigger for this event.
    pub fn trigger(creature_id: u32, team_id: u32) -> (r: ConvertCreatureTrigger)
        ensures
            r.creature_id == creature_id,
            r.team_id == team_id,
    {
        ConvertCreatureTrigger { creature_id, team_id }
    }
}

/// Builds and fires a `ConvertCreature` event.
#[derive(Clone, Copy, Debug, PartialEq, Eq, Structural)]
pub struct ConvertCreatureTrigger {
    pub creature_id: u32,
    pub team_id: u32,
}

impl ConvertCreatureTrigger {
    /// The event that this trigger fires.
    pub open spec fn to_event(&self) -> Event {
        Event::ConvertCreature(
            ConvertCreature { creature_id: self.creature_id, team_id: self.team_id },
        )
    }

    /// Returns a `ConvertCreature` event.
    pub fn event(&self) -> (r: Event)
        ensures
            r == self.to_event(),
            r == Event::ConvertCreature(
                ConvertCreature { creature_id: self.creature_id, team_id: self.team_id },
            ),
    {
        Event::ConvertCreature(
            ConvertCreature { creature_id: self.creature_id, team_id: self.team_id },
        )
    }

    /// Submits the event to the battle.
    pub fn fire<R: BattleRules>(&self, battle: &mut Battle<R>) -> (r: Result<(), BattleError>)
        requires
            old(battle).wf(),
        ensures
            final(battle).wf(),
            !self.to_event().valid(*old(battle)) ==> (r matches Err(e)
                && self.to_event().rejected_with(*old(battle), e)) && *final(battle) == *old(
                battle,
            ),
            self.to_event().valid(*old(battle)) && r is Err ==> old(battle).same_state(
                &*final(battle),
            ),
            r is Ok ==> self.to_event().valid(*old(battle)) && final(battle).history_view().len()
                > old(battle).history_view().len() && final(battle).history_view()[old(
                battle,
            ).history_view().len() as int] == self.to_event(),
            self.to_event().valid(*old(battle)) ==> r is Ok && self.to_event().applied(
                *old(battle),
                *final(battle),
                Seq::<Event>::empty(),
                Seq::<Event>::empty(),
            ) && final(battle).history_view() == old(battle).history_view().push(self.to_event()),
    {
        battle.process(self.event())
    }
}

impl RemoveCreature {
    /// Returns a trigger for this event.
    pub fn trigger(id: u32) -> (r: RemoveCreatureTrigger)
        ensures
            r.id == id,
    {
        RemoveCreatureTrigger { id }
    }
}

/// Builds and fires a `RemoveCreature` event.
#[derive(Clone, Copy, Debug, PartialEq, Eq, Structural)]
pub struct RemoveCreatureTrigger {
    pub id: u32,
}

impl RemoveCreatureTrigger {
    /// The event that this trigger fires.
    pub open spec fn to_event(&self) -> Event {
        Event::RemoveCreature(RemoveCreature { id: self.id })
    }

    /// Returns a `RemoveCreature` event.
    pub fn event(&self) -> (r: Event)
        ensures
            r == self.to_event(),
            r == Event::RemoveCreature(RemoveCreature { id: self.id }),
    {
        Event::RemoveCreature(RemoveCreature { id: self.id })
    }

    /// Submits the event to the battle.
    pub fn fire<R: BattleRules>(&self, battle: &mut Battle<R>) -> (r: Result<(), BattleError>)
        requires
            old(battle).wf(),
        ensures
            final(battle).wf(),
            !self.to_event().valid(*old(battle)) ==> (r matches Err(e)
                && self.to_event().rejected_with(*old(battle), e)) && *final(battle) == *old(
                battle,
            ),
            self.to_event().valid(*old(battle)) && r is Err ==> old(battle).same_state(
                &*final(battle),
            ),
            r is Ok ==> self.to_event().valid(*old(battle)) && final(battle).history_view().len()
                > old(battle).history_view().len() && final(battle).history_view()[old(
                battle,
            ).history_view().len() as int] == self.to_event(),
    {
        battle.process(self.event())
    }
}

} // verus!

verus! {

impl Replica for Creature {
    closed spec fn same(&self, other: &Self) -> bool {
        &&& self.id == other.id
        &&& self.team_id == other.team_id
        &&& self.position == other.position
        &&& self.statistics.same(&other.statistics)
        &&& self.statuses.same(&other.statuses)
        &&& self.abilities.same(&other.abilities)
    }

    fn replica(&self) -> (r: Self) {
        Creature {
            id: self.id,
            team_id: self.team_id,
            position: self.position,
            statistics: self.statistics.replica(),
            statuses: self.statuses.replica(),
            abilities: self.abilities.replica(),
        }
    }
}

impl Creature {
    /// A creature and its replica agree on everything the contracts speak of.
    pub proof fn lemma_same(&self, other: &Self)
        requires
            self.same(other),
            self.wf(),
        ensures
            other.wf(),
            other.cid() == self.cid(),
            other.team() == self.team(),
            other.pos() == self.pos(),
            other.statistics_map() == self.statistics_map(),
            other.statuses_map() == self.statuses_map(),
            other.abilities_map() == self.abilities_map(),
    {
        assert forall|i: int| 0 <= i < self.statistics.values().len() implies self.statistics.values()[i]
            == other.statistics.values()[i] by {
            assert(self.statistics.values()[i].same(&other.statistics.values()[i]));
        }
        assert(self.statistics.values() =~= other.statistics.values());
        assert forall|i: int| 0 <= i < self.statuses.values().len() implies self.statuses.values()[i]
            == other.statuses.values()[i] by {
            assert(self.statuses.values()[i].same(&other.statuses.values()[i]));
        }
        assert(self.statuses.values() =~= other.statuses.values());
        assert forall|i: int| 0 <= i < self.abilities.values().len() implies self.abilities.values()[i]
            == other.abilities.values()[i] by {
            assert(self.abilities.values()[i].same(&other.abilities.values()[i]));
        }
        assert(self.abilities.values() =~= other.abilities.values());
        self.statistics.lemma_same_entries(&other.statistics, 0);
        self.statuses.lemma_same_entries(&other.statuses, 0);
        self.abilities.lemma_same_entries(&other.abilities, 0);
        assert(self.statistics_map() =~= other.statistics_map());
        assert(self.statuses_map() =~= other.statuses_map());
        assert(self.abilities_map() =~= other.abilities_map());
    }
}

} // verus!
