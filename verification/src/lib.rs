//! Verified core of a binding to DeckLink video devices: the claim on an
//! output channel, frames, scheduled playback and its teardown, and the
//! decoding of what the driver reports.
//!
//! The library never calls the driver. Where the driver has to act, a
//! function returns the call to make as a value, and a second function takes
//! the driver's answer; what the driver reported about a device, a frame or a
//! video mode comes in as plain numbers and is decoded here.

pub mod connectors;
pub mod device;
pub mod display_mode;
pub mod frame;
pub mod util;

pub use util::{OutputError, SdkError};
