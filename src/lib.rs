//! Gameplay rules of a small 2D platformer: the game phases, the mapping from
//! the per-tick input snapshot onto the player's actor, and the description of
//! the player entity spawned from level data.
//!
//! Lengths, speeds and durations are fixed-point integers counted in
//! thousandths of the engine's unit (see [`player::Milli`]).

pub mod bundle;
pub mod game_state;
pub mod player;
