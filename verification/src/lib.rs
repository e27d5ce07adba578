//! Decision core of a motorcycle lighting and signal controller.
//!
//! Given the driver-control switches sampled once per control cycle and a
//! monotonic tick clock, the core decides which of twelve power channels
//! should be energized. It is pure logic: the surrounding system samples the
//! inputs, supplies the current tick, and drives the physical channels.

pub mod laws;
pub mod logic;
pub mod time;
