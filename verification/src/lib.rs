//! Verified core of an arcade racing simulation.
//!
//! The library models per-frame car physics — a slip-angle tire model,
//! longitudinal traction and drag, suspension, and an explicit-Euler state
//! integrator — together with the control sources (human key handling, AI
//! path following, recorded-trace playback) and the presentation consumers
//! (camera follower, tire-mark emitter) that share its invariants.
//!
//! All quantities are signed 64-bit fixed-point numbers with 16 fractional
//! bits, so every formula is exact integer arithmetic and every public
//! function carries a proved contract.

pub mod fx;
pub mod trig;
pub mod vec;
pub mod suspension;
pub mod rng;
pub mod config;
pub mod car;
pub mod physics;
pub mod driver;
pub mod playback;
pub mod track;
pub mod ai;
pub mod camera;
pub mod wheelmark;
