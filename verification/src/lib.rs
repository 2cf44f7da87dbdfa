//! Decides when shading devices follow the sun: the next light transitions
//! reported by a home-automation hub, the schedule that waits for them, the
//! camera heuristic that confirms them, and the backoff used while the hub is
//! unreachable.
//!
//! Everything here works on plain values. Reading the clock, sleeping and
//! talking to the hub are left to the caller, who feeds the results in.

pub mod raster;
pub mod camera;
pub mod client;
pub mod home_assistant;
pub mod sun;
pub mod scheduler;
pub mod retry;
