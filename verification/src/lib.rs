//! Core of a small real-time audio mixing engine.
//!
//! The engine drives a hardware output stream: on every hardware-requested
//! buffer it blends the contributions of a dynamically growing set of
//! pluggable audio sources ("resources") into one output signal, normalizes
//! the blend by the number of resources, and converts it to the native
//! sample representation the hardware negotiated.
//!
//! Amplitudes are fixed-point: a sample value `q` stands for the normalized
//! amplitude `q / 32768`, so [`sample::UNIT`] stands for full scale `1` and
//! `-UNIT` for `-1`. Hardware glue (device negotiation, the stream callback
//! plumbing, the shutdown signal delivery) lives outside this crate and talks
//! to it through plain values.

pub mod registry;
pub mod resource;
pub mod sample;
pub mod stream;
pub mod system;
