//! A procedural solar-system scene: simulation state, phase-angle
//! computation for the orbiting bodies, deterministic starfield
//! generation, composition of the per-frame draw-primitive sequence,
//! and a memoizing render cache invalidated on each tick.

pub mod cache;
pub mod canvas_state;
pub mod phase;
pub mod primitives;
pub mod solar_system;

pub use phase::TICK_INTERVAL_MS;
