//! The verified core of a small top-down game: key-binding schemes and their
//! resync, the keyboard and touch movement intents, the integrator's
//! consume step, the game-mode state machine, and the small decisions of the
//! audio, menu and editor layers.

pub mod blueprint;
pub mod controls;
pub mod editor;
pub mod flavor;
pub mod menu;
pub mod state;
