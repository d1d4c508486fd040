//! Control logic for a two-axis pointing rig with a single-point laser
//! distance sensor: stepper-motor phase state machines, the shared state
//! cell used for cross-thread handoff, the distance-sensor protocol
//! parser, spherical-scan path optimization, and the scan orchestrator.

pub mod distance;
pub mod scan;
pub mod motor;
pub mod shared;
pub mod sphere;
