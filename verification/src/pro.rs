//! Prototype ("pro") file bodies: the per-kind byte layouts that follow
//! the common prototype header. The weapon and scenery bodies are decoded
//! here, along with the ladder patch applied while placing scenery on a
//! map.

pub mod ladder;
pub mod scenery;
pub mod weapon;
