//! A terminal snake game as a verified core.
//!
//! The library holds everything the game decides or computes: toroidal
//! grid geometry, random cell placement, the tick-advance state machine
//! with growth and self-collision, keypress-to-signal mapping, and the
//! frame layout the renderer draws. Terminal control itself (raw mode,
//! the alternate screen, key polling, colored writes) lives outside the
//! library, which only hands it plain values.

pub mod game;
pub mod geometry;
pub mod input;
pub mod lifecycle;
pub mod placement;
pub mod render;
