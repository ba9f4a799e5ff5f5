//! Core rules of a dice-driven tower-defense game.
//!
//! The playable game wraps these rules in an engine: rendering, input and
//! scene management stay outside. This crate holds the parts that can be
//! stated and proved over plain values: the dice and the shop economy, the
//! pools of dice and towers with their highlight cursors, the phase machine
//! of a round, the timers that pace spawning and shooting, and the integer
//! combat arithmetic of a wave.

pub mod filter;
pub mod game;
pub mod input;
pub mod timer;
