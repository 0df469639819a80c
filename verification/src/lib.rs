//! Control logic for a PCM playback sink: device-hint filtering for the
//! enumeration listing, hardware/software parameter negotiation, and the
//! open/start/write/stop lifecycle with its error and recovery rules.
//!
//! The crate holds no device I/O of its own. A driver opens the device,
//! queries its capabilities, applies negotiated parameters, writes frames,
//! drains and recovers; this library decides what to ask of the device and
//! how each outcome changes the sink's state.

pub mod hints;
pub mod params;
pub mod sink;
