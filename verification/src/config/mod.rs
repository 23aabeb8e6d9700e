//! Settings of the serial line.

pub mod serial_config;

pub use serial_config::{ConfigError, DataBits, Parity, SerialConfig, StopBits};
