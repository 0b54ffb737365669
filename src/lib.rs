//! Provisioning of a PeachCloud device.
//!
//! The library decides what to run and how to read what came back; the
//! program around it runs the commands, touches the file system and prints.
//! Setup, update and networking are lists of [`script::Step`]s that a
//! [`script::Session`] walks through one action at a time, stopping at the
//! first failure.

pub mod constants;
pub mod error;
pub mod generate_manifest;
pub mod script;
pub mod setup_networking;
pub mod setup_peach;
pub mod setup_peach_deb;
pub mod text;
pub mod update;
pub mod utils;
