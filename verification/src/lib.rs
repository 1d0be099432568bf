//! Locomotion of a player-controlled ball.
//!
//! Once per tick a keyboard state steers the player (the input mapper), and
//! the player's direction and speed then become a change of the velocity of
//! its body (the velocity integrator). The velocity is added to, never set,
//! so a body that is driven in one direction accelerates, and it goes on
//! doing so after the key is released: the direction stays until another
//! key overwrites it.
//!
//! - [`keys`]: the four steering keys and how they are read from the
//!   engine's keyboard state.
//! - [`vector`]: integer vectors.
//! - [`player`]: the player's state and the two operations on it.
//! - [`simulation`]: the player together with its body's velocity, advanced
//!   tick by tick.
//!
//! Quantities are integers in fixed units: speed in thousandths of a world
//! unit per second, time in microseconds, velocity in billionths of a world
//! unit per second.

pub mod keys;
pub mod player;
pub mod simulation;
pub mod vector;
