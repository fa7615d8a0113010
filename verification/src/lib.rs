//! A verified core for a text dashboard that shows the live positions of
//! steering-wheel controls (steering, pedals, handbrake, shift buttons)
//! read from one input device.
//!
//! The library covers the pure pipeline: resolving each configured event
//! code against the device's reported capabilities, keeping a snapshot of
//! all channel positions up to date from an event stream, and rendering
//! the snapshot as bordered fill-bars with terminal escape sequences.
//! Opening the device, fetching events and writing to the terminal are
//! left to the surrounding program.

pub mod bars;
pub mod calibrate;
pub mod codes;
pub mod frame;
pub mod state;
pub mod term;
