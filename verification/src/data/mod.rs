//! The stream core: byte classification, line reassembly and rendering.

pub mod classifier;
pub mod formatter;
pub mod hex;
pub mod parser;
pub mod roundtrip;
pub mod stream;
pub mod text;

pub use classifier::DataType;
pub use formatter::DataFormatter;
pub use parser::DataParser;
