//! Event-sourced core of a turn-based battle: creatures, teams, positions and
//! turns change only through events that are verified before they are applied.

pub mod ordered_map;
pub mod entity;
pub mod character;
pub mod round;
pub mod team;
pub mod space;
pub mod creature;
pub mod error;
pub mod entities;
pub mod rules;
pub mod event;
pub mod battle;
