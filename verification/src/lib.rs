//! Decision logic of a procedurally animated mantis: control-scheme
//! selection, keyboard and mouse steering, the turn-taking of its legs,
//! the node schedule of the FABRIK leg solver and the offset rule of its
//! abdomen.

pub mod body;
pub mod controls;
pub mod fabrik;
pub mod gait;
