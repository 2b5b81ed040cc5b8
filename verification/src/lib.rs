//! Decoder and input-translation engine for a handheld motion controller.
//!
//! The controller reports its state as fixed-layout 20-byte telemetry
//! packets. This crate decodes such a packet into a structured snapshot
//! of the controller state and translates successive snapshots into
//! discrete host-input commands: relative pointer motion, button and key
//! edges, and rotary scroll ticks. Transport (how packets arrive) and
//! injection (how commands reach the host) are left to the caller.

pub mod snapshot;
pub mod decoder;
pub mod commands;
pub mod angle;
pub mod translator;
