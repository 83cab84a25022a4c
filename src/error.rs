//! The errors that a rejected event reports.

use crate::entity::EntityId;
use crate::space::SpaceError;
use vstd::prelude::*;

verus! {

/// Why an event was rejected. Every one of these comes from verifying an
/// event against the current state, before anything changed.
#[derive(Clone, Debug, PartialEq, Eq)]
pub enum BattleError {
    TeamNotFound(u32),
    DuplicatedTeam(u32),
    CreatureNotFound(u32),
    DuplicatedCreature(u32),
    /// The team's rules refused a new creature, for the given reason.
    NewCreatureUnaccepted(u32, String),
    /// The team (first field) refused the creature (second field), for the
    /// given reason.
    ConvertedCreatureUnaccepted(u32, u32, String),
    /// The creature (second field) already belongs to the team (first field).
    InvalidCreatureConversion(u32, u32),
    /// The ledger refused the position for the entity.
    PositionError(Option<EntityId>, u32, SpaceError),
    /// A turn is already in progress.
    TurnInProgress,
    /// The events that one submission set off went past the cascade limit.
    CascadeTooLong,
}

} // verus!
