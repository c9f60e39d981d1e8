//! Driver for ST-Link USB debug probes.
//!
//! The crate is split in two layers: a transport layer that frames commands
//! for the probe's bulk endpoints (`usb_interface`), and a protocol engine
//! (`stlink`) that encodes probe commands, decodes status and payload, and
//! exposes the probe's operation set.

pub mod commands;
pub mod common;
pub mod probe;
pub mod protocol;
pub mod stlink;
pub mod usb_interface;
