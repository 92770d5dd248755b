//! Decision logic of the OpenStar Linux compute worker.
//!
//! Everything here works on plain values. Floating-point numbers are carried
//! as their bit patterns (see [`float_bits`]); network, disk, clock and threads
//! belong to the program that drives this library.
//!
//! What takes several steps with work outside in between is a state machine:
//! [`worker`] for the run as a whole, [`batch`] for a claimed batch, [`config`]
//! for the node's identity and [`backend`] for the choice of a backend.

pub mod float_bits;
pub mod outside;
pub mod text;
pub mod json;
pub mod protocol;
pub mod wire;
pub mod protocol_laws;
pub mod kernel;
pub mod kernel_laws;
pub mod box_period_search;
pub mod box_laws;
pub mod vulkan;
pub mod backend;
pub mod config;
pub mod memory;
pub mod client;
pub mod retry;
pub mod batch;
pub mod batch_laws;
pub mod unit_laws;
pub mod worker;
pub mod worker_laws;
pub mod call_laws;
