//! Sensors of the host.

pub mod temp;
