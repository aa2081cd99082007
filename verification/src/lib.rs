//! Core of an interrupt-driven Pong game for a bare-metal character display.
//!
//! Two asynchronous event sources, a periodic timer and a keyboard, feed a
//! single deterministic game-state machine through a pair of single-slot
//! latches. The main loop polls the latches, advances the simulation once per
//! tick, and projects the state into a list of draw commands for the display.

pub mod driver;
pub mod game;
pub mod input;
pub mod latch;
pub mod render;
