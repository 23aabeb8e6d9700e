//! Choice of the serial port among those that the system offers.

pub mod detector;
pub mod selector;

pub use detector::{Platform, PortDetector, PortInfo, PortKind, UsbInfo};
pub use selector::{PortSelector, Selection};
