//! Teams and the reasons for which an entity may ask to join one.

use crate::battle::Battle;
use crate::error::BattleError;
use crate::event::Event;
use crate::ordered_map::Replica;
use crate::rules::BattleRules;
use vstd::prelude::*;

verus! {

/// Why an entity asks to join a team.
#[derive(Clone, Copy, Debug, PartialEq, Eq, Structural)]
pub enum EntityAddition {
    /// A new creature is spawned into the team.
    CreatureSpawn,
    /// The creature with this id leaves its team for this one.
    CreatureConversion(u32),
}

/// A team: its id and the ids of its member creatures, in order of arrival.
pub struct Team {
    id: u32,
    creatures: Vec<u32>,
}

impl Team {
    pub closed spec fn tid(&self) -> u32 {
        self.id
    }

    pub closed spec fn members(&self) -> Seq<u32> {
        self.creatures@
    }

    pub open spec fn wf(&self) -> bool {
        self.members().no_duplicates()
    }

    pub fn new(id: u32) -> (r: Self)
        ensures
            r.tid() == id,
            r.members() == Seq::<u32>::empty(),
            r.wf(),
    {
        Team { id, creatures: Vec::new() }
    }

    pub fn id(&self) -> (r: u32)
        ensures
            r == self.tid(),
    {
        self.id
    }

    /// The number of member creatures.
    pub fn creature_count(&self) -> (r: usize)
        ensures
            r == self.members().len(),
    {
        self.creatures.len()
    }

    /// The member at position `i` in order of arrival.
    pub fn creature_at(&self, i: usize) -> (r: u32)
        requires
            i < self.members().len(),
        ensures
            r == self.members()[i as int],
    {
        self.creatures[i]
    }

    pub fn has_creature(&self, c: u32) -> (r: bool)
        ensures
            r == self.members().contains(c),
    {
        let mut i: usize = 0;
        while i < self.creatures.len()
            invariant
                i <= self.creatures@.len(),
                forall|j: int| 0 <= j < i ==> self.creatures@[j] != c,
            decreases self.creatures@.len() - i,
        {
            if self.creatures[i] == c {
                assert(self.creatures@[i as int] == c);
                return true;
            }
            i = i + 1;
        }
        false
    }

    pub(crate) fn add_creature(&mut self, c: u32)
        requires
            old(self).wf(),
            !old(self).members().contains(c),
        ensures
            final(self).wf(),
            final(self).tid() == old(self).tid(),
            final(self).members() == old(self).members().push(c),
    {
        self.creatures.push(c);
        proof {
            let s = self.creatures@;
            assert forall|a: int, b: int|
                0 <= a < s.len() && 0 <= b < s.len() && a != b implies s[a] != s[b] by {
                if a == s.len() - 1 {
                    assert(old(self).members()[b] == s[b]);
                } else if b == s.len() - 1 {
                    assert(old(self).members()[a] == s[a]);
                }
            }
        }
    }

    pub(crate) fn remove_creature(&mut self, c: u32)
        requires
            old(self).wf(),
        ensures
            final(self).wf(),
            final(self).tid() == old(self).tid(),
            final(self).members() == old(self).members().remove_value(c),
            !final(self).members().contains(c),
            forall|x: u32| x != c ==> (final(self).members().contains(x) <==> old(self).members().contains(x)),
    {
        let ghost s = self.creatures@;
        proof {
            s.index_of_first_ensures(c);
        }
        let mut i: usize = 0;
        while i < self.creatures.len()
            invariant
                i <= self.creatures@.len(),
                self.creatures@ == s,
                s == old(self).members(),
                s.no_duplicates(),
                self.id == old(self).id,
                forall|j: int| 0 <= j < i ==> s[j] != c,
            decreases self.creatures@.len() - i,
        {
            if self.creatures[i] == c {
                self.creatures.remove(i);
                proof {
                    assert(s.contains(c)) by { assert(s[i as int] == c); }
                    s.index_of_first_ensures(c);
                    s.remove_ensures(i as int);
                    let n = self.creatures@;
                    assert forall|a: int, b: int|
                        0 <= a < n.len() && 0 <= b < n.len() && a != b implies n[a] != n[b] by {
                        let a2 = if a < i { a } else { a + 1 };
                        let b2 = if b < i { b } else { b + 1 };
                        assert(n[a] == s[a2]);
                        assert(n[b] == s[b2]);
                    }
                    assert forall|x: u32| x != c implies (n.contains(x) <==> s.contains(x)) by {
                        if n.contains(x) {
                            let j = choose|j: int| 0 <= j < n.len() && n[j] == x;
                            let j2 = if j < i { j } else { j + 1 };
                            assert(s[j2] == x);
                        }
                        if s.contains(x) {
                            let j = choose|j: int| 0 <= j < s.len() && s[j] == x;
                            assert(j != i);
                            let j2 = if j < i { j } else { j - 1 };
                            assert(n[j2] == x);
                        }
                    }
                    assert(!n.contains(c)) by {
                        if n.contains(c) {
                            let j = choose|j: int| 0 <= j < n.len() && n[j] == c;
                            let j2 = if j < i { j } else { j + 1 };
                            assert(s[j2] == c);
                        }
                    }
                }
                return;
            }
            i = i + 1;
        }
        proof {
            assert(!s.contains(c));
            s.index_of_first_ensures(c);
        }
    }
}

} // verus!

verus! {

/// Event to create a new, empty team.
#[derive(Clone, Copy, Debug, PartialEq, Eq, Structural)]
pub struct CreateTeam {
    pub id: u32,
}

impl CreateTeam {
    /// Returns the id of the team to be created.
    pub fn id(&self) -> (r: u32)
        ensures
            r == self.id,
    {
        self.id
    }

    /// No team has the id yet.
    pub open spec fn valid<R: BattleRules>(&self, b: Battle<R>) -> bool {
        !b.entities_view().teams_map().contains_key(self.id)
    }

    /// The error of a rejected team creation.
    pub open spec fn rejected_with<R: BattleRules>(&self, b: Battle<R>, e: BattleError) -> bool {
        e == BattleError::DuplicatedTeam(self.id)
    }

    /// What applying the team creation does: one more team, with no
    /// members; nothing else changes and no event is queued.
    pub open spec fn applied<R: BattleRules>(
        &self,
        o: Battle<R>,
        n: Battle<R>,
        q0: Seq<Event>,
        q1: Seq<Event>,
    ) -> bool {
        let oe = o.entities_view();
        let ne = n.entities_view();
        &&& ne.teams_map() == oe.teams_map().insert(self.id, ne.teams_map()[self.id])
        &&& ne.teams_map()[self.id].tid() == self.id
        &&& ne.teams_map()[self.id].members() == Seq::<u32>::empty()
        &&& ne.creatures_map() == oe.creatures_map()
        &&& n.space_view() == o.space_view()
        &&& n.rounds_view() == o.rounds_view()
        &&& n.rules_view() == o.rules_view()
        &&& n.created() == o.created()
        &&& q1 == q0
    }

    pub fn verify<R: BattleRules>(&self, battle: &Battle<R>) -> (r: Result<(), BattleError>)
        requires
            battle.wf(),
        ensures
            r is Ok <==> self.valid(*battle),
            r matches Err(e) ==> self.rejected_with(*battle, e),
    {
        if battle.entities().team(self.id).is_some() {
            return Err(BattleError::DuplicatedTeam(self.id));
        }
        Ok(())
    }

    /// Adds the team, with no members.
    pub fn apply<R: BattleRules>(&self, battle: &mut Battle<R>, queue: &mut Vec<Event>)
        requires
            old(battle).wf(),
            self.valid(*old(battle)),
        ensures
            final(battle).wf(),
            self.applied(*old(battle), *final(battle), old(queue)@, final(queue)@),
            final(battle).history_view() == old(battle).history_view(),
    {
        let r = battle.entities_mut().add_team(self.id);
        proof {
            assert(r is Ok);
        }
    }
}

} // verus!

verus! {

impl Replica for Team {
    open spec fn same(&self, other: &Self) -> bool {
        &&& self.tid() == other.tid()
        &&& self.members() == other.members()
    }

    fn replica(&self) -> (r: Self) {
        let mut creatures: Vec<u32> = Vec::new();
        let mut i: usize = 0;
        while i < self.creatures.len()
            invariant
                i <= self.creatures@.len(),
                creatures@ == self.creatures@.subrange(0, i as int),
            decreases self.creatures@.len() - i,
        {
            creatures.push(self.creatures[i]);
            i = i + 1;
            assert(creatures@ =~= self.creatures@.subrange(0, i as int));
        }
        assert(creatures@ =~= self.creatures@);
        Team { id: self.id, creatures }
    }
}

} // verus!
