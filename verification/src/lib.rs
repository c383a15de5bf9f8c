//! Verified core of a driver for the DeepCool AK500S DIGITAL cooler display.

pub mod api;
pub mod cli;
pub mod config;
pub mod device;
pub mod protocol;
pub mod runner;
pub mod sensor;
pub mod text;
