//! A five-body gravitational integrator, split into a verified core and a
//! floating-point executor.
//!
//! The core decides everything that is not floating-point arithmetic: the
//! order in which body pairs interact, when each body's position is advanced,
//! and the overall run orchestration (normalize momentum, observe energy,
//! advance a given number of steps, observe energy again). Those decisions are
//! verified here. The IEEE double-precision arithmetic itself is carried out
//! by an unverified executor that follows the schedules this crate produces.

pub mod momentum;
pub mod schedule;
