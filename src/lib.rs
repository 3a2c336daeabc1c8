//! Telemetry-normalisation core for a wearable EEG headband: typed decoding of
//! wire messages, bounded running statistics, artifact suppression counters
//! and the routing of every event to its record stream.

pub mod float_bits;
pub mod model;
pub mod packet;
pub mod records;
pub mod stats;
pub mod time_format;
