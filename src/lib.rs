//! A deterministic, seeded rule engine for an UNO-like card game: deck
//! construction, legal-move enumeration and the state transition of a move.

pub mod card;
pub mod shuffle;
pub mod game;
pub mod moves;
pub mod transition;
pub mod laws;
pub mod bot;
pub mod text;
