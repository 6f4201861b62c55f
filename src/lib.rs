//! A magnetic-pendulum particle field: the parameter block that the compute
//! kernel reads, the seeding of the particle field, and the engine's
//! per-frame and restart protocol, all stated and proved over plain values.
//!
//! Floating-point values are carried as their IEEE-754 binary32 bit patterns,
//! exactly as the kernel reads them from its uniform buffer.
pub mod params;
pub mod seed;
pub mod engine;
pub mod resources;

pub use params::{Params, Preset};
pub use seed::{Heading, Scale, Seed, VelocityPattern};
pub use engine::GPUSim;
