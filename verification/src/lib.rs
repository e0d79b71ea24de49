//! Sensor command protocol layer and threshold alert for an air-quality monitor.
//!
//! The crate frames commands for a CO2 sensor and a particulate-matter sensor,
//! decodes their interleaved responses, and classifies readings into alert levels.

pub mod checksum;
pub mod codec;
pub mod transport;
pub mod scd30;
pub mod sps30;
pub mod number_representations;
pub mod alert;
pub mod dk_button;
pub mod rgb_led;
