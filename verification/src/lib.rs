//! Turn-based combat between the heroes of a game: the catalog of classes,
//! abilities and items, the resolution of an ability's effects, the turn itself
//! with levels, critical strikes and death, and the games with their rosters.
//! Every function is verified against its contract.

pub mod account;
pub mod combat;
pub mod contract;
pub mod error;
pub mod game;
pub mod hero_class;
pub mod items;
pub mod log_events;
pub mod player;

pub use crate::combat::CRITICAL_STRIKE;
pub use crate::contract::Contract;
pub use crate::game::Game;
pub use crate::player::{Player, PlayerV1};
