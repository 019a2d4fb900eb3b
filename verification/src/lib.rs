//! The decision logic of an LED actor for an ESP32-S3 board: how messages
//! and timer ticks change the actor's state, which pixel is sent to the LED,
//! and when the step timer runs.

pub mod actor;
pub mod colour;
pub mod handle;
pub mod inbox;
pub mod laws;
