//! A terminal fireplace: cell coordinates, sprites, a paint surface that records
//! terminal commands, a rising-heat fire automaton, and the frame logic that
//! composes them next to a countdown to Christmas Eve.

pub mod fire;
pub mod generics;
pub mod graphics;
pub mod scene;
pub mod term;
pub mod text;
pub mod ttc;
