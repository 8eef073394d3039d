//! Host-side protocol and configuration engine for the Midi-Fader controller.
//!
//! The crate opens no device and waits for none. It reaches the device
//! through the trait `device::transport::AsyncHidDevice`, which whoever holds
//! the device open implements; everything that is decided between a request
//! for a configuration and its response is decided here.

pub mod config;
pub mod device;
