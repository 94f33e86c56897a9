//! Input-processing core of a USB keyboard controller.
//!
//! The library covers the scan-to-report pipeline of a keyboard matrix:
//! driving one column at a time and sampling rows (`scanner`), turning the
//! raw switch grid into a fixed-capacity report of logical keys (`mapper`),
//! and a cooperative polling loop that gates scanning and device servicing
//! behind two independent countdown timers (`scheduler`, `timer`).  The
//! hardware itself — GPIO pins, the USB stack, the clock — sits outside the
//! library: callers perform the commanded pin and transport operations and
//! feed the observed outcomes back into the state machines defined here.

pub mod grid;
pub mod keys;
pub mod mapper;
pub mod scanner;
pub mod scheduler;
pub mod timer;
pub mod transport;
