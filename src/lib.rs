//! Per-tick state updates of a small orbital simulation that need no
//! floating point: the presentation scale level, the phase of every circular
//! rail a body travels on, and the sprite-sheet row of a facing direction.

pub mod components;
pub mod frame;
pub mod input;
pub mod keyboard;
pub mod rails;
