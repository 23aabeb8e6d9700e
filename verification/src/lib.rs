//! Online classification, line reassembly and rendering of a device byte stream.

pub mod cli;
pub mod config;
pub mod data;
pub mod fake;
pub mod parse;
pub mod port;
pub mod reader;

pub use config::SerialConfig;
pub use data::{DataFormatter, DataParser};
pub use port::{PortDetector, PortSelector};
pub use reader::{ReaderSession, SessionStats};
