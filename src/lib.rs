//! Element taxonomy, pairwise reaction rules, particle spawning and world
//! boundary policy for a two-dimensional physical sandbox.

pub mod element;
pub mod reaction;
pub mod particle;
pub mod sandbox;
pub mod dashboard;
