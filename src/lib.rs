//! The core of a small 2D entity-component engine: entity identities,
//! component stores joined on identity, box geometry with anchor points, and
//! draw systems that turn the world into drawing calls.
use vstd::prelude::*;

pub mod components;
pub mod ecs;
pub mod geometry;
pub mod render;
pub mod world;

verus! {

} // verus!
