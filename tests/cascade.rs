use weasel::battle::Battle;
use weasel::character::{Ability, Statistic};
use weasel::creature::{ConvertCreature, CreateCreature, RemoveCreature};
use weasel::entity::EntityId;
use weasel::error::BattleError;
use weasel::event::Event;
use weasel::round::{StartTurn, TurnState};
use weasel::rules::TableRules;
use weasel::team::CreateTeam;

fn rules() -> TableRules {
    TableRules {
        closed_teams: Vec::new(),
        reason: String::new(),
        statistics: Vec::new(),
        abilities: Vec::new(),
        follow_ups: Vec::new(),
        turn_end_events: Vec::new(),
    }
}

/// Creature 10 brings 11 and 12 along; creature 11 brings 13. Creature 20
/// brings 21 and then a second creature 20, which is refused.
fn summoners() -> TableRules {
    TableRules {
        follow_ups: vec![
            (10, CreateCreature::trigger(11, 1, 11).event()),
            (10, CreateCreature::trigger(12, 1, 12).event()),
            (11, CreateCreature::trigger(13, 1, 13).event()),
            (20, CreateCreature::trigger(21, 1, 21).event()),
            (20, CreateCreature::trigger(20, 1, 22).event()),
        ],
        ..rules()
    }
}

#[test]
fn cascade_runs_depth_first() {
    let mut battle = Battle::new(summoners());
    assert!(battle.process(Event::CreateTeam(CreateTeam { id: 1 })).is_ok());
    assert!(CreateCreature::trigger(10, 1, 10).fire(&mut battle).is_ok());
    let order: Vec<u32> = (1..battle.history_len())
        .map(|i| match battle.history_at(i) {
            Event::CreateCreature(e) => e.id(),
            _ => panic!("expected a creation"),
        })
        .collect();
    assert_eq!(order, vec![10, 11, 13, 12]);
    assert_eq!(battle.entities().creatures_count(), 4);
    assert_eq!(battle.creatures_created(), 4);
    assert_eq!(battle.entities().team(1).unwrap().creature_count(), 4);
}

#[test]
fn apply_queues_the_hook_events_in_order() {
    let mut battle = Battle::new(summoners());
    assert!(battle.process(Event::CreateTeam(CreateTeam { id: 1 })).is_ok());
    let mut queue = vec![Event::StartTurn(StartTurn { id: 99 })];
    let create = CreateCreature::trigger(10, 1, 10).event();
    assert!(create.verify(&battle).is_ok());
    create.apply(&mut battle, &mut queue);
    assert_eq!(
        queue,
        vec![
            Event::StartTurn(StartTurn { id: 99 }),
            CreateCreature::trigger(11, 1, 11).event(),
            CreateCreature::trigger(12, 1, 12).event(),
        ]
    );
}

#[test]
fn cascade_function_stops_at_the_first_rejection() {
    let mut battle = Battle::new(rules());
    assert!(battle.process(Event::CreateTeam(CreateTeam { id: 1 })).is_ok());
    let queue = vec![
        CreateCreature::trigger(1, 1, 1).event(),
        CreateCreature::trigger(1, 1, 2).event(),
        CreateCreature::trigger(3, 1, 3).event(),
    ];
    assert_eq!(battle.cascade(queue, 10), Err(BattleError::DuplicatedCreature(1)));
    assert_eq!(battle.entities().creatures_count(), 1);
    assert_eq!(battle.cascade(Vec::new(), 10), Ok(10));
    let queue = vec![CreateCreature::trigger(4, 1, 4).event(), CreateCreature::trigger(5, 1, 5).event()];
    assert_eq!(battle.cascade(queue, 1), Err(BattleError::CascadeTooLong));
    assert_eq!(battle.entities().creatures_count(), 2);
    let queue = vec![CreateCreature::trigger(6, 1, 6).event()];
    assert_eq!(battle.cascade(queue, 3), Ok(2));
}

#[test]
fn turn_end_objectives_run_when_the_actor_is_removed() {
    let mut battle = Battle::new(TableRules {
        turn_end_events: vec![CreateCreature::trigger(7, 1, 7).event()],
        ..rules()
    });
    assert!(battle.process(Event::CreateTeam(CreateTeam { id: 1 })).is_ok());
    assert!(CreateCreature::trigger(1, 1, 1).fire(&mut battle).is_ok());
    assert!(CreateCreature::trigger(2, 1, 2).fire(&mut battle).is_ok());
    // Not mid-turn: no objective events.
    assert!(RemoveCreature::trigger(2).fire(&mut battle).is_ok());
    assert!(battle.entities().creature(7).is_none());
    assert!(battle.process(Event::StartTurn(StartTurn { id: 1 })).is_ok());
    assert!(RemoveCreature::trigger(1).fire(&mut battle).is_ok());
    assert_eq!(battle.rounds().state(), &TurnState::Ready);
    assert!(battle.entities().creature(1).is_none());
    assert_eq!(battle.space().occupant(7), Some(EntityId::Creature(7)));
    assert_eq!(battle.rounds().actor_count(), 1);
}

#[test]
fn seeds_drive_generation() {
    let mut battle = Battle::new(TableRules {
        statistics: vec![Statistic::new(1, 5), Statistic::new(2, 6), Statistic::new(1, 9)],
        abilities: vec![Ability::new(3, 1)],
        ..rules()
    });
    assert!(battle.process(Event::CreateTeam(CreateTeam { id: 1 })).is_ok());
    assert!(CreateCreature::trigger(1, 1, 1).fire(&mut battle).is_ok());
    assert!(CreateCreature::trigger(2, 1, 2)
        .statistics_seed(40)
        .abilities_seed(7)
        .fire(&mut battle)
        .is_ok());
    let c = battle.entities().creature(1).unwrap();
    assert_eq!(c.statistics_count(), 2);
    assert_eq!(c.statistic(1), Some(Statistic::new(1, 9)));
    assert_eq!(c.statistic(2), Some(Statistic::new(2, 6)));
    assert_eq!(c.statistics().id_at(0), 1);
    assert_eq!(c.statistics().id_at(1), 2);
    assert_eq!(c.ability(3), Some(Ability::new(3, 1)));
    let c = battle.entities().creature(2).unwrap();
    assert_eq!(c.statistic(1), Some(Statistic::new(1, 40)));
    assert_eq!(c.statistic(2), Some(Statistic::new(2, 40)));
    assert_eq!(c.ability(3), Some(Ability::new(3, 7)));
    assert!(c.status(1).is_none());
}

#[test]
fn team_rules_can_refuse() {
    let mut battle = Battle::new(TableRules {
        closed_teams: vec![2],
        reason: "closed".to_string(),
        ..rules()
    });
    assert!(battle.process(Event::CreateTeam(CreateTeam { id: 1 })).is_ok());
    assert!(battle.process(Event::CreateTeam(CreateTeam { id: 2 })).is_ok());
    assert_eq!(
        CreateCreature::trigger(1, 2, 1).fire(&mut battle),
        Err(BattleError::NewCreatureUnaccepted(2, "closed".to_string()))
    );
    assert!(CreateCreature::trigger(1, 1, 1).fire(&mut battle).is_ok());
    assert_eq!(
        ConvertCreature::trigger(1, 2).fire(&mut battle),
        Err(BattleError::ConvertedCreatureUnaccepted(2, 1, "closed".to_string()))
    );
    assert_eq!(battle.entities().creature(1).unwrap().team_id(), 1);
    assert_eq!(battle.entities().team(2).unwrap().creature_count(), 0);
}

#[test]
fn refused_cascade_rolls_back_the_submission() {
    let mut battle = Battle::new(summoners());
    assert!(battle.process(Event::CreateTeam(CreateTeam { id: 1 })).is_ok());
    let history = battle.history_len();
    assert_eq!(
        CreateCreature::trigger(20, 1, 20).fire(&mut battle),
        Err(BattleError::DuplicatedCreature(20))
    );
    assert_eq!(battle.entities().creatures_count(), 0);
    assert_eq!(battle.entities().team(1).unwrap().creature_count(), 0);
    assert_eq!(battle.space().occupant(20), None);
    assert_eq!(battle.space().occupant(21), None);
    assert_eq!(battle.history_len(), history);
    assert_eq!(battle.creatures_created(), 0);
    assert_eq!(battle.rounds().actor_count(), 0);
    assert!(CreateCreature::trigger(20, 1, 20).fire(&mut battle).is_err());
    assert!(CreateCreature::trigger(30, 1, 20).fire(&mut battle).is_ok());
}
