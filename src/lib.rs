//! A USB mouse that keeps the host awake: a four-step movement sequencer, a
//! single-slot hand-off of reports from the main loop to the USB interrupt,
//! the main loop's step, and the device's fixed identity. The firmware owns
//! the USB device and HID class and drains the slot into the HID endpoint.

pub mod report;
pub mod sequencer;
pub mod handoff;
pub mod config;
pub mod jiggler;
