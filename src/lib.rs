//! Power-on reporter for a small serial-attached device.
//!
//! The device holds four counters. At power-on it writes each of them as a
//! decimal line to its serial transmit line, adds a diagnostic `BUG` line when
//! the fourth counter is non-zero, and then idles forever. This crate holds
//! that logic: how each line is formed, in which order the lines are written,
//! how a failed write is handled, and that nothing follows the last line.
//! Driving the hardware is left to the firmware that links it.

pub mod decimal;
pub mod report;
pub mod reporter;
pub mod laws;
