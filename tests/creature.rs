use weasel::battle::Battle;
use weasel::character::{Ability, AppliedStatus, Statistic};
use weasel::creature::{ConvertCreature, CreateCreature, Creature, RemoveCreature};
use weasel::entity::EntityId;
use weasel::error::BattleError;
use weasel::event::{Event, EventKind};
use weasel::round::{StartTurn, TurnState};
use weasel::rules::EmptyRules;
use weasel::space::SpaceError;
use weasel::team::CreateTeam;

fn team(battle: &mut Battle<EmptyRules>, id: u32) {
    assert!(battle.process(Event::CreateTeam(CreateTeam { id })).is_ok());
}

fn creature(battle: &mut Battle<EmptyRules>, id: u32, team_id: u32, position: u32) {
    assert!(CreateCreature::trigger(id, team_id, position).fire(battle).is_ok());
}

#[test]
fn mutable_statistics() {
    let mut creature = Creature::new(1, 1, 0);
    assert!(creature.statistic(1).is_none());
    creature.add_statistic(Statistic::new(1, 50));
    assert!(creature.statistic(1).is_some());
    creature.statistic_mut(1).unwrap().set_value(25);
    assert_eq!(creature.statistic(1).unwrap().value(), 25);
    let last = creature.statistics().len() - 1;
    creature.statistic_mut_at(last).set_value(30);
    assert_eq!(creature.statistic(1).unwrap().value(), 30);
    creature.remove_statistic(1);
    assert!(creature.statistic(1).is_none());
}

#[test]
fn mutable_status() {
    let mut creature = Creature::new(1, 1, 0);
    assert!(creature.status(1).is_none());
    creature.add_status(AppliedStatus::new(1, 50, Some(1)));
    assert!(creature.status(1).is_some());
    creature.status_mut(1).unwrap().set_effect(25);
    assert_eq!(creature.status(1).unwrap().effect(), 25);
    let last = creature.statuses().len() - 1;
    creature.status_mut_at(last).set_effect(100);
    assert_eq!(creature.status(1).unwrap().effect(), 100);
    creature.remove_status(1);
    assert!(creature.status(1).is_none());
}

#[test]
fn mutable_abilities() {
    let mut creature = Creature::new(1, 1, 0);
    assert!(creature.ability(1).is_none());
    creature.add_ability(Ability::new(1, 50));
    assert!(creature.ability(1).is_some());
    creature.ability_mut(1).unwrap().set_power(25);
    assert_eq!(creature.ability(1).unwrap().power(), 25);
    let last = creature.abilities().len() - 1;
    creature.ability_mut_at(last).set_power(100);
    assert_eq!(creature.ability(1).unwrap().power(), 100);
    creature.remove_ability(1);
    assert!(creature.ability(1).is_none());
}

#[test]
fn add_statistic_replaces_in_place() {
    let mut creature = Creature::new(7, 2, 3);
    assert_eq!(creature.add_statistic(Statistic::new(1, 10)), None);
    assert_eq!(creature.add_statistic(Statistic::new(2, 20)), None);
    assert_eq!(creature.add_statistic(Statistic::new(1, 11)), Some(Statistic::new(1, 10)));
    assert_eq!(creature.statistics_count(), 2);
    assert_eq!(creature.statistic(1), Some(Statistic::new(1, 11)));
    assert_eq!(creature.id(), 7);
    assert_eq!(creature.team_id(), 2);
    assert_eq!(creature.position(), 3);
    assert_eq!(creature.entity_id(), EntityId::Creature(7));
}

#[test]
fn spawn_creature_into_team() {
    let mut battle = Battle::new(EmptyRules::new());
    team(&mut battle, 1);
    creature(&mut battle, 1, 1, 5);
    assert_eq!(battle.entities().creatures_count(), 1);
    assert_eq!(battle.entities().creature(1).unwrap().team_id(), 1);
    assert_eq!(battle.space().occupant(5), Some(EntityId::Creature(1)));
    assert_eq!(battle.entities().team(1).unwrap().creature_count(), 1);
    assert_eq!(battle.creatures_created(), 1);
    assert_eq!(battle.rounds().state(), &TurnState::Ready);
}

#[test]
fn convert_creature_to_other_team() {
    let mut battle = Battle::new(EmptyRules::new());
    team(&mut battle, 1);
    creature(&mut battle, 1, 1, 5);
    team(&mut battle, 2);
    assert!(ConvertCreature::trigger(1, 2).fire(&mut battle).is_ok());
    assert_eq!(battle.entities().creature(1).unwrap().team_id(), 2);
    assert_eq!(battle.entities().team(1).unwrap().creature_count(), 0);
    assert_eq!(battle.entities().team(2).unwrap().creature_count(), 1);
    assert!(battle.entities().team(2).unwrap().has_creature(1));
    assert!(!battle.entities().team(1).unwrap().has_creature(1));
    assert_eq!(battle.space().occupant(5), Some(EntityId::Creature(1)));
}

#[test]
fn remove_creature_mid_turn() {
    let mut battle = Battle::new(EmptyRules::new());
    team(&mut battle, 1);
    creature(&mut battle, 1, 1, 5);
    assert!(battle.process(Event::StartTurn(StartTurn { id: 1 })).is_ok());
    assert_eq!(battle.rounds().state(), &TurnState::Started(vec![EntityId::Creature(1)]));
    assert!(RemoveCreature::trigger(1).fire(&mut battle).is_ok());
    assert_eq!(battle.rounds().state(), &TurnState::Ready);
    assert_eq!(battle.entities().creatures_count(), 0);
    assert_eq!(battle.entities().team(1).unwrap().creature_count(), 0);
    assert_eq!(battle.space().occupant(5), None);
}

#[test]
fn removal_frees_position_for_a_new_spawn() {
    let mut battle = Battle::new(EmptyRules::new());
    team(&mut battle, 1);
    creature(&mut battle, 1, 1, 5);
    assert!(RemoveCreature::trigger(1).fire(&mut battle).is_ok());
    assert!(battle.entities().creature(1).is_none());
    creature(&mut battle, 2, 1, 5);
    assert_eq!(battle.space().occupant(5), Some(EntityId::Creature(2)));
}

#[test]
fn remove_creature_outside_its_turn_keeps_turn() {
    let mut battle = Battle::new(EmptyRules::new());
    team(&mut battle, 1);
    creature(&mut battle, 1, 1, 5);
    creature(&mut battle, 2, 1, 6);
    assert!(battle.process(Event::StartTurn(StartTurn { id: 2 })).is_ok());
    assert!(RemoveCreature::trigger(1).fire(&mut battle).is_ok());
    assert_eq!(battle.rounds().state(), &TurnState::Started(vec![EntityId::Creature(2)]));
}

#[test]
fn duplicated_creature_is_rejected() {
    let mut battle = Battle::new(EmptyRules::new());
    team(&mut battle, 1);
    creature(&mut battle, 1, 1, 5);
    let history = battle.history_len();
    let r = CreateCreature::trigger(1, 1, 6).fire(&mut battle);
    assert_eq!(r, Err(BattleError::DuplicatedCreature(1)));
    assert_eq!(battle.entities().creatures_count(), 1);
    assert_eq!(battle.space().occupant(6), None);
    assert_eq!(battle.history_len(), history);
    assert_eq!(battle.creatures_created(), 1);
}

#[test]
fn convert_to_own_team_is_rejected() {
    let mut battle = Battle::new(EmptyRules::new());
    team(&mut battle, 1);
    creature(&mut battle, 1, 1, 5);
    let history = battle.history_len();
    let r = ConvertCreature::trigger(1, 1).fire(&mut battle);
    assert_eq!(r, Err(BattleError::InvalidCreatureConversion(1, 1)));
    assert_eq!(battle.entities().creature(1).unwrap().team_id(), 1);
    assert_eq!(battle.entities().team(1).unwrap().creature_count(), 1);
    assert_eq!(battle.history_len(), history);
}

#[test]
fn rejected_events_change_nothing() {
    let mut battle = Battle::new(EmptyRules::new());
    team(&mut battle, 1);
    creature(&mut battle, 1, 1, 5);
    let history = battle.history_len();
    let rejected = [
        Event::CreateTeam(CreateTeam { id: 1 }),
        CreateCreature::trigger(2, 9, 6).event(),
        CreateCreature::trigger(2, 1, 5).event(),
        ConvertCreature::trigger(3, 1).event(),
        ConvertCreature::trigger(1, 9).event(),
        RemoveCreature::trigger(3).event(),
        Event::StartTurn(StartTurn { id: 3 }),
    ];
    for event in rejected.iter() {
        assert!(battle.process(*event).is_err());
        assert_eq!(battle.history_len(), history);
        assert_eq!(battle.entities().creatures_count(), 1);
        assert_eq!(battle.entities().teams_count(), 1);
        assert_eq!(battle.space().occupant(5), Some(EntityId::Creature(1)));
        assert_eq!(battle.space().occupant(6), None);
        assert_eq!(battle.rounds().state(), &TurnState::Ready);
        assert_eq!(battle.creatures_created(), 1);
    }
}

#[test]
fn each_error_names_its_cause() {
    let mut battle = Battle::new(EmptyRules::new());
    team(&mut battle, 1);
    creature(&mut battle, 1, 1, 5);
    assert_eq!(
        battle.process(Event::CreateTeam(CreateTeam { id: 1 })),
        Err(BattleError::DuplicatedTeam(1))
    );
    assert_eq!(
        CreateCreature::trigger(2, 9, 6).fire(&mut battle),
        Err(BattleError::TeamNotFound(9))
    );
    assert_eq!(
        CreateCreature::trigger(2, 1, 5).fire(&mut battle),
        Err(BattleError::PositionError(
            None,
            5,
            SpaceError::PositionOccupied(5, EntityId::Creature(1))
        ))
    );
    assert_eq!(
        ConvertCreature::trigger(3, 1).fire(&mut battle),
        Err(BattleError::CreatureNotFound(3))
    );
    assert_eq!(
        ConvertCreature::trigger(1, 9).fire(&mut battle),
        Err(BattleError::TeamNotFound(9))
    );
    assert_eq!(
        RemoveCreature::trigger(3).fire(&mut battle),
        Err(BattleError::CreatureNotFound(3))
    );
    assert_eq!(
        battle.process(Event::StartTurn(StartTurn { id: 3 })),
        Err(BattleError::CreatureNotFound(3))
    );
    assert!(battle.process(Event::StartTurn(StartTurn { id: 1 })).is_ok());
    assert_eq!(
        battle.process(Event::StartTurn(StartTurn { id: 1 })),
        Err(BattleError::TurnInProgress)
    );
}

#[test]
fn history_records_applied_events_in_order() {
    let mut battle = Battle::new(EmptyRules::new());
    team(&mut battle, 1);
    creature(&mut battle, 4, 1, 5);
    assert!(RemoveCreature::trigger(4).fire(&mut battle).is_ok());
    assert_eq!(battle.history_len(), 3);
    assert_eq!(battle.history_at(0).kind(), EventKind::CreateTeam);
    assert_eq!(battle.history_at(1), CreateCreature::trigger(4, 1, 5).event());
    assert_eq!(battle.history_at(2).kind(), EventKind::RemoveCreature);
}

#[test]
fn trigger_builds_the_event() {
    let t = CreateCreature::trigger(3, 2, 1).statistics_seed(8).abilities_seed(9);
    match t.event() {
        Event::CreateCreature(e) => {
            assert_eq!(e.id(), 3);
            assert_eq!(e.team_id(), 2);
            assert_eq!(e.position(), 1);
            assert_eq!(e.statistics_seed(), Some(8));
            assert_eq!(e.abilities_seed(), Some(9));
        }
        _ => panic!("expected a creation"),
    }
    match ConvertCreature::trigger(3, 4).event() {
        Event::ConvertCreature(e) => {
            assert_eq!(e.creature_id(), 3);
            assert_eq!(e.team_id(), 4);
        }
        _ => panic!("expected a conversion"),
    }
    match RemoveCreature::trigger(6).event() {
        Event::RemoveCreature(e) => assert_eq!(e.id(), 6),
        _ => panic!("expected a removal"),
    }
}
