//! Synthetic device output for trying a listener.

pub mod generators;
pub mod hl7;
pub mod vital_signs;
pub mod waveform;

pub use generators::CustomGenerator;
pub use hl7::Hl7Generator;
pub use vital_signs::VitalSignsGenerator;
pub use waveform::WaveformGenerator;
