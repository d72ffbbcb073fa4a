//! Protocol core for a family of Bluetooth-LE power meters: building the
//! outbound command frames the meters understand, reassembling their
//! notification fragments into complete telemetry frames, decoding the
//! fixed-point electrical readings inside a frame, and the per-device
//! bookkeeping that keeps many meters' streams apart.

pub mod codec;
pub mod reassembler;
pub mod decoder;
pub mod collector;
pub mod polling;
pub mod discovery;
