//! The registry of teams and creatures: the one place where entities come
//! into existence, change team and leave.

use crate::creature::Creature;
use crate::error::BattleError;
use crate::ordered_map::{OrderedMap, Replica};
use crate::team::Team;
use vstd::prelude::*;

verus! {

/// All teams and creatures of a battle, each kind keyed by id in order of arrival.
pub struct Entities {
    creatures: OrderedMap<Creature>,
    teams: OrderedMap<Team>,
}

impl Entities {
    pub closed spec fn creatures_map(&self) -> Map<u32, Creature> {
        self.creatures@
    }

    pub closed spec fn teams_map(&self) -> Map<u32, Team> {
        self.teams@
    }

    /// Creature ids in order of arrival.
    pub closed spec fn creature_ids(&self) -> Seq<u32> {
        self.creatures.keys()
    }

    /// Team ids in order of arrival.
    pub closed spec fn team_ids(&self) -> Seq<u32> {
        self.teams.keys()
    }

    pub closed spec fn maps_wf(&self) -> bool {
        self.creatures.wf() && self.teams.wf()
    }

    /// Each creature is stored under its own id and is a member of its team;
    /// each team is stored under its own id and its members are creatures
    /// that name it as their team.
    pub open spec fn wf(&self) -> bool {
        &&& self.maps_wf()
        &&& forall|c: u32| #[trigger]
            self.creatures_map().contains_key(c) ==> {
                let cr = self.creatures_map()[c];
                &&& cr.wf()
                &&& cr.cid() == c
                &&& self.teams_map().contains_key(cr.team())
                &&& self.teams_map()[cr.team()].members().contains(c)
            }
        &&& forall|t: u32| #[trigger]
            self.teams_map().contains_key(t) ==> self.teams_map()[t].wf()
                && self.teams_map()[t].tid() == t
        &&& forall|t: u32, i: int|
            self.teams_map().contains_key(t) && 0 <= i < self.teams_map()[t].members().len()
                ==> self.creatures_map().contains_key(#[trigger] self.teams_map()[t].members()[i])
                && self.creatures_map()[self.teams_map()[t].members()[i]].team() == t
    }

    proof fn lemma_len(&self)
        requires
            self.maps_wf(),
        ensures
            self.creature_ids().len() == self.creatures_map().len(),
            self.team_ids().len() == self.teams_map().len(),
            self.creature_ids().to_set() == self.creatures_map().dom(),
    {
        self.creatures.lemma_wf_len();
        self.teams.lemma_wf_len();
        self.creature_ids().unique_seq_to_set();
        self.team_ids().unique_seq_to_set();
        assert(self.creature_ids().to_set() =~= self.creatures_map().dom());
        assert(self.team_ids().to_set() =~= self.teams_map().dom());
    }

    /// No two live creatures share an id: each id is listed once, and each
    /// creature is stored under its own id.
    pub proof fn lemma_creature_ids_unique(&self)
        requires
            self.wf(),
        ensures
            self.creature_ids().no_duplicates(),
            self.creature_ids().to_set() == self.creatures_map().dom(),
            self.creature_ids().len() == self.creatures_map().len(),
            forall|c: u32| #[trigger]
                self.creatures_map().contains_key(c) ==> self.creatures_map()[c].cid() == c,
    {
        self.lemma_len();
        self.creatures.lemma_wf_len();
    }

    pub fn new() -> (r: Self)
        ensures
            r.wf(),
            r.creatures_map() == Map::<u32, Creature>::empty(),
            r.teams_map() == Map::<u32, Team>::empty(),
    {
        Entities { creatures: OrderedMap::new(), teams: OrderedMap::new() }
    }

    pub fn creature(&self, id: u32) -> (r: Option<&Creature>)
        requires
            self.wf(),
        ensures
            match r {
                Some(c) => self.creatures_map().contains_key(id) && *c == self.creatures_map()[id],
                None => !self.creatures_map().contains_key(id),
            },
    {
        self.creatures.get(id)
    }

    pub fn team(&self, id: u32) -> (r: Option<&Team>)
        requires
            self.wf(),
        ensures
            match r {
                Some(t) => self.teams_map().contains_key(id) && *t == self.teams_map()[id],
                None => !self.teams_map().contains_key(id),
            },
    {
        self.teams.get(id)
    }

    /// The number of live creatures.
    pub fn creatures_count(&self) -> (r: usize)
        requires
            self.wf(),
        ensures
            r == self.creatures_map().len(),
    {
        self.creatures.len()
    }

    /// The number of teams.
    pub fn teams_count(&self) -> (r: usize)
        requires
            self.wf(),
        ensures
            r == self.teams_map().len(),
    {
        self.teams.len()
    }

    /// The creature at position `i` in order of arrival.
    pub fn creature_at(&self, i: usize) -> (r: &Creature)
        requires
            self.wf(),
            i < self.creatures_map().len(),
        ensures
            self.creatures_map().contains_key(self.creature_ids()[i as int]),
            *r == self.creatures_map()[self.creature_ids()[i as int]],
    {
        proof { self.lemma_len(); }
        self.creatures.entry_at(i).1
    }

    /// Adds an empty team; fails if the id is taken.
    pub fn add_team(&mut self, id: u32) -> (r: Result<(), BattleError>)
        requires
            old(self).wf(),
        ensures
            final(self).wf(),
            old(self).teams_map().contains_key(id) ==> r == Err::<(), BattleError>(
                BattleError::DuplicatedTeam(id),
            ) && *final(self) == *old(self),
            !old(self).teams_map().contains_key(id) ==> {
                &&& r is Ok
                &&& final(self).teams_map() == old(self).teams_map().insert(
                    id,
                    final(self).teams_map()[id],
                )
                &&& final(self).teams_map()[id].tid() == id
                &&& final(self).teams_map()[id].members() == Seq::<u32>::empty()
                &&& final(self).creatures_map() == old(self).creatures_map()
            },
    {
        if self.teams.contains_key(id) {
            return Err(BattleError::DuplicatedTeam(id));
        }
        let t = Team::new(id);
        self.teams.insert(id, t);
        proof {
            let o = old(self);
            assert(self.teams_map()[id] == t);
            assert forall|c: u32| #[trigger] self.creatures_map().contains_key(c) implies {
                let cr = self.creatures_map()[c];
                &&& cr.wf()
                &&& cr.cid() == c
                &&& self.teams_map().contains_key(cr.team())
                &&& self.teams_map()[cr.team()].members().contains(c)
            } by {
                assert(o.creatures_map().contains_key(c));
            }
            assert forall|tt: u32| #[trigger] self.teams_map().contains_key(tt) implies self.teams_map()[tt].wf()
                && self.teams_map()[tt].tid() == tt by {
                if tt != id {
                    assert(o.teams_map().contains_key(tt));
                }
            }
            assert forall|tt: u32, i: int|
                self.teams_map().contains_key(tt) && 0 <= i < self.teams_map()[tt].members().len()
                implies self.creatures_map().contains_key(#[trigger] self.teams_map()[tt].members()[i])
                && self.creatures_map()[self.teams_map()[tt].members()[i]].team() == tt by {
                if tt != id {
                    assert(o.teams_map().contains_key(tt));
                    assert(o.teams_map()[tt].members()[i] == self.teams_map()[tt].members()[i]);
                }
            }
        }
        Ok(())
    }

    /// Adds a creature and makes it a member of its team. Fails if its id is
    /// taken or its team does not exist.
    pub fn add_creature(&mut self, creature: Creature) -> (r: Result<(), BattleError>)
        requires
            old(self).wf(),
            creature.wf(),
        ensures
            final(self).wf(),
            old(self).creatures_map().contains_key(creature.cid()) ==> r == Err::<(), BattleError>(
                BattleError::DuplicatedCreature(creature.cid()),
            ) && *final(self) == *old(self),
            !old(self).creatures_map().contains_key(creature.cid()) && !old(
                self,
            ).teams_map().contains_key(creature.team()) ==> r == Err::<(), BattleError>(
                BattleError::TeamNotFound(creature.team()),
            ) && *final(self) == *old(self),
            !old(self).creatures_map().contains_key(creature.cid()) && old(
                self,
            ).teams_map().contains_key(creature.team()) ==> {
                &&& r is Ok
                &&& final(self).creatures_map() == old(self).creatures_map().insert(
                    creature.cid(),
                    creature,
                )
                &&& final(self).creature_ids() == old(self).creature_ids().push(creature.cid())
                &&& final(self).teams_map().dom() == old(self).teams_map().dom()
                &&& final(self).teams_map()[creature.team()].members() == old(
                    self,
                ).teams_map()[creature.team()].members().push(creature.cid())
                &&& forall|t: u32|
                    t != creature.team() ==> #[trigger] final(self).teams_map()[t] == old(
                        self,
                    ).teams_map()[t]
            },
    {
        let id = creature.id();
        let team_id = creature.team_id();
        if self.creatures.contains_key(id) {
            return Err(BattleError::DuplicatedCreature(id));
        }
        let ti = match self.teams.index_of(team_id) {
            Some(i) => i,
            None => {
                return Err(BattleError::TeamNotFound(team_id));
            },
        };
        proof {
            let tm = self.teams_map()[team_id];
            if tm.members().contains(id) {
                let j = choose|j: int| 0 <= j < tm.members().len() && tm.members()[j] == id;
                assert(self.creatures_map().contains_key(tm.members()[j]));
            }
        }
        let team = self.teams.value_mut_at(ti);
        team.add_creature(id);
        self.creatures.insert(id, creature);
        proof {
            let o = old(self);
            assert(self.teams_map().dom() =~= o.teams_map().dom());
            assert forall|c: u32| #[trigger] self.creatures_map().contains_key(c) implies {
                let cr = self.creatures_map()[c];
                &&& cr.wf()
                &&& cr.cid() == c
                &&& self.teams_map().contains_key(cr.team())
                &&& self.teams_map()[cr.team()].members().contains(c)
            } by {
                if c == id {
                    let m = self.teams_map()[team_id].members();
                    assert(m[m.len() - 1] == id);
                } else {
                    assert(o.creatures_map().contains_key(c));
                    let cr = o.creatures_map()[c];
                    if cr.team() == team_id {
                        let m = o.teams_map()[team_id].members();
                        let j = choose|j: int| 0 <= j < m.len() && m[j] == c;
                        assert(self.teams_map()[team_id].members()[j] == c);
                    }
                }
            }
            assert forall|t: u32| #[trigger] self.teams_map().contains_key(t) implies self.teams_map()[t].wf()
                && self.teams_map()[t].tid() == t by {
                assert(o.teams_map().contains_key(t));
            }
            assert forall|t: u32, i: int|
                self.teams_map().contains_key(t) && 0 <= i < self.teams_map()[t].members().len()
                implies self.creatures_map().contains_key(#[trigger] self.teams_map()[t].members()[i])
                && self.creatures_map()[self.teams_map()[t].members()[i]].team() == t by {
                assert(o.teams_map().contains_key(t));
                let m = self.teams_map()[t].members();
                if t == team_id && i == m.len() - 1 {
                    assert(m[i] == id);
                } else {
                    assert(m[i] == o.teams_map()[t].members()[i]);
                    assert(o.creatures_map().contains_key(m[i]));
                }
            }
        }
        Ok(())
    }

    /// Removes a creature from the registry and from its team, and hands it back.
    pub fn remove_creature(&mut self, id: u32) -> (r: Result<Creature, BattleError>)
        requires
            old(self).wf(),
        ensures
            final(self).wf(),
            !old(self).creatures_map().contains_key(id) ==> r == Err::<Creature, BattleError>(
                BattleError::CreatureNotFound(id),
            ) && *final(self) == *old(self),
            old(self).creatures_map().contains_key(id) ==> {
                let t = old(self).creatures_map()[id].team();
                &&& r == Ok::<Creature, BattleError>(old(self).creatures_map()[id])
                &&& final(self).creatures_map() == old(self).creatures_map().remove(id)
                &&& final(self).teams_map().dom() == old(self).teams_map().dom()
                &&& final(self).teams_map()[t].tid() == t
                &&& final(self).teams_map()[t].members() == old(self).teams_map()[t].members().remove_value(id)
                &&& !final(self).teams_map()[t].members().contains(id)
                &&& forall|u: u32| u != t ==> #[trigger] final(self).teams_map()[u] == old(self).teams_map()[u]
            },
    {
        if !self.creatures.contains_key(id) {
            return Err(BattleError::CreatureNotFound(id));
        }
        let creature = self.creatures.remove(id).unwrap();
        let team_id = creature.team_id();
        proof {
            assert(old(self).creatures_map().contains_key(id));
        }
        let ti = self.teams.index_of(team_id).unwrap();
        let team = self.teams.value_mut_at(ti);
        team.remove_creature(id);
        proof {
            let o = old(self);
            assert(self.teams_map().dom() =~= o.teams_map().dom());
            assert forall|c: u32| #[trigger] self.creatures_map().contains_key(c) implies {
                let cr = self.creatures_map()[c];
                &&& cr.wf()
                &&& cr.cid() == c
                &&& self.teams_map().contains_key(cr.team())
                &&& self.teams_map()[cr.team()].members().contains(c)
            } by {
                assert(o.creatures_map().contains_key(c));
            }
            assert forall|t: u32| #[trigger] self.teams_map().contains_key(t) implies self.teams_map()[t].wf()
                && self.teams_map()[t].tid() == t by {
                assert(o.teams_map().contains_key(t));
            }
            assert forall|t: u32, i: int|
                self.teams_map().contains_key(t) && 0 <= i < self.teams_map()[t].members().len()
                implies self.creatures_map().contains_key(#[trigger] self.teams_map()[t].members()[i])
                && self.creatures_map()[self.teams_map()[t].members()[i]].team() == t by {
                assert(o.teams_map().contains_key(t));
                let m = self.teams_map()[t].members();
                let x = m[i];
                assert(m.contains(x));
                if t == team_id {
                    assert(x != id);
                    assert(o.teams_map()[t].members().contains(x));
                }
                let om = o.teams_map()[t].members();
                let j = choose|j: int| 0 <= j < om.len() && om[j] == x;
                assert(o.creatures_map().contains_key(om[j]));
            }
        }
        Ok(creature)
    }

    /// Moves a creature from its team to `team_id`. Converting a creature to
    /// the team it is in changes nothing.
    pub fn convert_creature(&mut self, id: u32, team_id: u32) -> (r: Result<(), BattleError>)
        requires
            old(self).wf(),
        ensures
            final(self).wf(),
            !old(self).creatures_map().contains_key(id) ==> r == Err::<(), BattleError>(
                BattleError::CreatureNotFound(id),
            ) && *final(self) == *old(self),
            old(self).creatures_map().contains_key(id) && !old(self).teams_map().contains_key(team_id)
                ==> r == Err::<(), BattleError>(BattleError::TeamNotFound(team_id)) && *final(self)
                == *old(self),
            old(self).creatures_map().contains_key(id) && old(self).teams_map().contains_key(team_id)
                && old(self).creatures_map()[id].team() == team_id ==> r is Ok && *final(self)
                == *old(self),
            old(self).creatures_map().contains_key(id) && old(self).teams_map().contains_key(team_id)
                && old(self).creatures_map()[id].team() != team_id ==> {
                let c = old(self).creatures_map()[id];
                let n = final(self).creatures_map()[id];
                let from = c.team();
                &&& r is Ok
                &&& final(self).creatures_map().dom() == old(self).creatures_map().dom()
                &&& forall|x: u32| x != id ==> #[trigger] final(self).creatures_map()[x] == old(self).creatures_map()[x]
                &&& n.team() == team_id
                &&& n.cid() == c.cid()
                &&& n.pos() == c.pos()
                &&& n.statistics_map() == c.statistics_map()
                &&& n.statuses_map() == c.statuses_map()
                &&& n.abilities_map() == c.abilities_map()
                &&& final(self).teams_map().dom() == old(self).teams_map().dom()
                &&& final(self).teams_map()[from].members() == old(self).teams_map()[from].members().remove_value(id)
                &&& !final(self).teams_map()[from].members().contains(id)
                &&& final(self).teams_map()[team_id].members() == old(self).teams_map()[team_id].members().push(id)
                &&& forall|u: u32| u != from && u != team_id ==> #[trigger] final(self).teams_map()[u] == old(self).teams_map()[u]
            },
    {
        let ci = match self.creatures.index_of(id) {
            Some(i) => i,
            None => {
                return Err(BattleError::CreatureNotFound(id));
            },
        };
        let ni = match self.teams.index_of(team_id) {
            Some(i) => i,
            None => {
                return Err(BattleError::TeamNotFound(team_id));
            },
        };
        let from = self.creatures.entry_at(ci).1.team_id();
        if from == team_id {
            return Ok(());
        }
        proof {
            assert(self.creatures_map().contains_key(id));
            assert(self.creatures_map()[id].team() == from);
            assert(self.teams_map().contains_key(from));
        }
        let fi = self.teams.index_of(from).unwrap();
        proof {
            let tm = self.teams_map()[team_id];
            if tm.members().contains(id) {
                let j = choose|j: int| 0 <= j < tm.members().len() && tm.members()[j] == id;
                assert(self.creatures_map().contains_key(tm.members()[j]));
            }
        }
        proof {
            assert(old(self).teams_map().contains_key(team_id));
            assert(old(self).teams_map().contains_key(from));
        }
        let old_team = self.teams.value_mut_at(fi);
        old_team.remove_creature(id);
        proof {
            assert(self.teams_map()[team_id] == old(self).teams_map()[team_id]);
            assert(self.teams_map()[from].members() == old(self).teams_map()[from].members().remove_value(id));
        }
        let ghost mid = self.teams_map();
        let new_team = self.teams.value_mut_at(ni);
        new_team.add_creature(id);
        proof {
            assert(self.teams_map()[from] == mid[from]);
            assert(self.teams_map()[team_id].members() == old(self).teams_map()[team_id].members().push(id));
        }
        let creature = self.creatures.value_mut_at(ci);
        creature.set_team_id(team_id);
        proof {
            let o = old(self);
            assert(self.teams_map().dom() =~= o.teams_map().dom());
            assert(self.creatures_map().dom() =~= o.creatures_map().dom());
            assert forall|c: u32| #[trigger] self.creatures_map().contains_key(c) implies {
                let cr = self.creatures_map()[c];
                &&& cr.wf()
                &&& cr.cid() == c
                &&& self.teams_map().contains_key(cr.team())
                &&& self.teams_map()[cr.team()].members().contains(c)
            } by {
                assert(o.creatures_map().contains_key(c));
                if c == id {
                    let m = self.teams_map()[team_id].members();
                    assert(m[m.len() - 1] == id);
                } else {
                    let cr = o.creatures_map()[c];
                    let om = o.teams_map()[cr.team()].members();
                    let j = choose|j: int| 0 <= j < om.len() && om[j] == c;
                    if cr.team() == team_id {
                        assert(self.teams_map()[team_id].members()[j] == c);
                    } else if cr.team() == from {
                        assert(om.contains(c));
                    }
                }
            }
            assert forall|t: u32| #[trigger] self.teams_map().contains_key(t) implies self.teams_map()[t].wf()
                && self.teams_map()[t].tid() == t by {
                assert(o.teams_map().contains_key(t));
            }
            assert forall|t: u32, i: int|
                self.teams_map().contains_key(t) && 0 <= i < self.teams_map()[t].members().len()
                implies self.creatures_map().contains_key(#[trigger] self.teams_map()[t].members()[i])
                && self.creatures_map()[self.teams_map()[t].members()[i]].team() == t by {
                assert(o.teams_map().contains_key(t));
                let m = self.teams_map()[t].members();
                let x = m[i];
                if t == team_id && i == m.len() - 1 {
                    assert(x == id);
                } else {
                    if t == from {
                        assert(m.contains(x));
                        assert(x != id);
                        assert(o.teams_map()[t].members().contains(x));
                        let om = o.teams_map()[t].members();
                        let j = choose|j: int| 0 <= j < om.len() && om[j] == x;
                        assert(o.creatures_map().contains_key(om[j]));
                    } else {
                        assert(x == o.teams_map()[t].members()[i]);
                        assert(o.creatures_map().contains_key(x));
                        if x == id {
                            assert(o.creatures_map()[id].team() == t);
                        }
                    }
                }
            }
        }
        Ok(())
    }
}

} // verus!

verus! {

impl Replica for Entities {
    closed spec fn same(&self, other: &Self) -> bool {
        &&& self.creatures.same(&other.creatures)
        &&& self.teams.same(&other.teams)
    }

    fn replica(&self) -> (r: Self) {
        Entities { creatures: self.creatures.replica(), teams: self.teams.replica() }
    }
}

impl Entities {
    /// A registry and its replica hold the same teams and creatures.
    pub proof fn lemma_same(&self, other: &Self)
        requires
            self.wf(),
            self.same(other),
        ensures
            other.wf(),
            other.creature_ids() == self.creature_ids(),
            other.team_ids() == self.team_ids(),
            other.creatures_map().dom() == self.creatures_map().dom(),
            other.teams_map().dom() == self.teams_map().dom(),
            forall|c: u32| #[trigger]
                self.creatures_map().contains_key(c) ==> {
                    let (a, b) = (self.creatures_map()[c], other.creatures_map()[c]);
                    &&& b.cid() == a.cid()
                    &&& b.team() == a.team()
                    &&& b.pos() == a.pos()
                    &&& b.statistics_map() == a.statistics_map()
                    &&& b.statuses_map() == a.statuses_map()
                    &&& b.abilities_map() == a.abilities_map()
                },
            forall|t: u32| #[trigger]
                self.teams_map().contains_key(t) ==> other.teams_map()[t].tid()
                    == self.teams_map()[t].tid() && other.teams_map()[t].members()
                    == self.teams_map()[t].members(),
    {
        self.creatures.lemma_same_entries(&other.creatures, 0);
        self.teams.lemma_same_entries(&other.teams, 0);
        assert forall|c: u32| #[trigger] self.creatures_map().contains_key(c) implies {
            let (a, b) = (self.creatures_map()[c], other.creatures_map()[c]);
            &&& b.wf()
            &&& b.cid() == a.cid()
            &&& b.team() == a.team()
            &&& b.pos() == a.pos()
            &&& b.statistics_map() == a.statistics_map()
            &&& b.statuses_map() == a.statuses_map()
            &&& b.abilities_map() == a.abilities_map()
        } by {
            self.creatures.lemma_same_entries(&other.creatures, c);
            self.creatures_map()[c].lemma_same(&other.creatures_map()[c]);
        }
        assert forall|t: u32| #[trigger] self.teams_map().contains_key(t) implies other.teams_map()[t].tid()
            == self.teams_map()[t].tid() && other.teams_map()[t].members()
            == self.teams_map()[t].members() by {
            self.teams.lemma_same_entries(&other.teams, t);
        }
        assert forall|c: u32| #[trigger] other.creatures_map().contains_key(c) implies {
            let cr = other.creatures_map()[c];
            &&& cr.wf()
            &&& cr.cid() == c
            &&& other.teams_map().contains_key(cr.team())
            &&& other.teams_map()[cr.team()].members().contains(c)
        } by {
            assert(self.creatures_map().contains_key(c));
            let t = self.creatures_map()[c].team();
            assert(self.teams_map().contains_key(t));
        }
        assert forall|t: u32| #[trigger] other.teams_map().contains_key(t) implies other.teams_map()[t].wf()
            && other.teams_map()[t].tid() == t by {
            assert(self.teams_map().contains_key(t));
        }
        assert forall|t: u32, i: int|
            other.teams_map().contains_key(t) && 0 <= i < other.teams_map()[t].members().len()
            implies other.creatures_map().contains_key(#[trigger] other.teams_map()[t].members()[i])
            && other.creatures_map()[other.teams_map()[t].members()[i]].team() == t by {
            assert(self.teams_map().contains_key(t));
            let x = self.teams_map()[t].members()[i];
            assert(self.creatures_map().contains_key(x));
        }
    }
}

} // verus!
