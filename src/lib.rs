//! A turn-based card game modelled as a verified state machine.
//!
//! [`engine::State`] is the general validate / compute / transition protocol,
//! and [`uno::UnoGameState`] is a two-phase discard / draw game built on it.
pub mod engine;
mod random;
pub mod uno;
pub mod laws;
