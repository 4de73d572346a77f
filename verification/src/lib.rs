//! Combat and hostile-AI simulation core for a survival / tower-defense game.
//!
//! Actors exchange damage, carry timed status effects, and die; hostile
//! actors choose behavior from a small set of archetypes driven by distance
//! to the player and their own health.  All fractional quantities (damage,
//! resistances, chances, seconds) are fixed-point values counted in
//! thousandths, so every rule is stated and proved over exact integers.

pub mod ai;
pub mod combat;
pub mod defense;
pub mod effects;
pub mod enemy;
pub mod laws;
pub mod math;
pub mod player;
pub mod rng;
pub mod scheduler;
pub mod spawn;
pub mod world;
