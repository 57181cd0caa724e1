//! A particle simulation engine whose backends agree by construction.
//!
//! The library holds the parts of an all-pairs particle simulation that
//! decide *what* is computed where: the ping-pong pair of state buffers,
//! the step driver that applies a force kernel to every particle against
//! an untouched snapshot, the host backends that distribute that work, and
//! the dispatch plan and synchronisation protocol of an accelerator run.
//! The force law itself is supplied by the caller as a kernel closure.
pub mod buffers;
pub mod kernel;
pub mod backend;
pub mod laws;
pub mod accelerator;
pub mod harness;
