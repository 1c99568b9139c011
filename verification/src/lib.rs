//! A small virtual-companion simulator: a persistent relationship record,
//! a pure interaction engine with daily gain caps and an in-game clock,
//! and a contextual dialogue selector over a static dialogue table.

pub mod dialogue;
pub mod engine;
pub mod state;
