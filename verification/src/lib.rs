//! Tracking and cursor relocation for machines with several pointing
//! devices. The crate keeps per-device position and lock state, reconciles
//! monitor-topology changes with in-flight device state, and decides when
//! and where the cursor must be moved; the host-facing rim (raw-input
//! delivery, monitor enumeration, cursor positioning, global hotkeys) hands
//! it plain values and carries out the actions it stages.

pub mod device_type;
pub mod errors;
pub mod host;
pub mod keyboard;
pub mod message;
pub mod mouse_control;
pub mod processor;
pub mod setting;
pub mod strutil;
pub mod utils;
