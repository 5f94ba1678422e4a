//! Sprite batching and frame scheduling for a population of 2D sprites.
//!
//! Entities carry position, velocity, transform and sprite components; a
//! change log reports sprite insertions and removals to the render system,
//! which keeps one draw batch per image. Batches own growable vertex and
//! index buffers whose capacity never shrinks. A fixed per-tick order runs
//! the input bridge, the simulation and the render pass, then commits
//! deferred entity spawns.
//!
//! All coordinates are integers in quarter-pixel units: four units make one
//! pixel, so the classic gravity of three quarters of a pixel per tick is
//! exact.

pub mod math;
pub mod components;
pub mod tracker;
pub mod rng;
pub mod batch;
pub mod input;
pub mod world;
pub mod sim;
pub mod render;
pub mod game;
