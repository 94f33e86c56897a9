//! Outcomes of the HID transport adapter, as observed by the scheduler.
//!
//! The transport itself — the USB device and HID class stack — lives
//! outside the library.  The caller performs each transport operation and
//! reports its outcome through these types; the scheduler decides what each
//! outcome means.

use vstd::prelude::*;

verus! {

/// Outcome of submitting a key report to the transport.
#[derive(Clone, Copy, PartialEq, Eq, Structural, Debug)]
pub enum SubmitOutcome {
    /// The report was accepted for transmission.
    Accepted,
    /// The transport cannot take a new report right now.
    Backpressure,
    /// The report equals the last one submitted; nothing to communicate.
    Duplicate,
    /// Any other submission failure: a transport protocol violation.
    Fatal,
}

/// Outcome of ticking the HID class's periodic state machine.
#[derive(Clone, Copy, PartialEq, Eq, Structural, Debug)]
pub enum TickOutcome {
    /// The tick ran.
    Completed,
    /// The class could not make progress right now.
    Backpressure,
    /// Any other tick failure.
    Fatal,
}

/// Outcome of attempting to read an inbound report from the host.
#[derive(Clone, Copy, PartialEq, Eq, Structural, Debug)]
pub enum ReadOutcome {
    /// No inbound report is available yet.
    NotAvailable,
    /// An inbound report arrived, carrying the host's indicator state.
    Report { caps_lock: bool },
    /// Any other read failure.
    Fatal,
}

} // verus!
