//! Decisions of the byte-stream transports.
//!
//! The device transport wraps the ESP32-S3 USB Serial/JTAG controller with
//! finite timeouts: a write to a host port that is closed or unopened, or one
//! that makes no progress, is reported as timed out so the framer drops the
//! response instead of wedging. The driver calls themselves are made by the
//! device build; what they are made for, and what their results mean, is
//! decided here.

use vstd::prelude::*;

verus! {

/// Read tick in milliseconds: how long a device read blocks before it
/// reports that no byte arrived.
pub const READ_TICK_MS: u64 = 10;

/// Write timeout in milliseconds: bounded, so an unopened or closed host
/// port drops the response.
pub const WRITE_TIMEOUT_MS: u64 = 200;

/// Why a transport operation failed.
#[derive(Debug, Clone, Copy, PartialEq, Eq, Structural)]
pub enum LinkFault {
    /// The host did not take the bytes in time (port closed or unopened).
    TimedOut,
    /// Any other driver failure.
    Other,
}

/// What a write of `len` bytes calls for before the driver is touched.
#[derive(Debug, Clone, Copy, PartialEq, Eq, Structural)]
pub enum WriteGate {
    /// Nothing to send: report 0 bytes written without asking the driver anything.
    Nothing,
    /// Check the host connection ([`usb_link_gate`]), then send.
    Send,
}

/// An empty write is done at once; anything else is sent once the link
/// allows it.
pub fn usb_write_gate(len: usize) -> (g: WriteGate)
    ensures
        g == (if len == 0 {
            WriteGate::Nothing
        } else {
            WriteGate::Send
        }),
{
    if len == 0 {
        WriteGate::Nothing
    } else {
        WriteGate::Send
    }
}

/// A write while the host port is not connected times out at once.
pub fn usb_link_gate(connected: bool) -> (r: Result<(), LinkFault>)
    ensures
        r == (if connected {
            Ok::<(), LinkFault>(())
        } else {
            Err(LinkFault::TimedOut)
        }),
{
    if connected {
        Ok(())
    } else {
        Err(LinkFault::TimedOut)
    }
}

/// The result of a driver write: a driver failure is `Other`, no progress
/// within the timeout is `TimedOut`, else the bytes written.
pub fn usb_write_result(sent: Option<usize>) -> (r: Result<usize, LinkFault>)
    ensures
        r == (match sent {
            None => Err(LinkFault::Other),
            Some(0) => Err(LinkFault::TimedOut),
            Some(n) => Ok::<usize, LinkFault>(n),
        }),
{
    match sent {
        None => Err(LinkFault::Other),
        Some(0) => Err(LinkFault::TimedOut),
        Some(n) => Ok(n),
    }
}

/// The result of a driver read: a driver failure is `Other`, else the
/// bytes read (0 when the tick passed with no data).
pub fn usb_read_result(got: Option<usize>) -> (r: Result<usize, LinkFault>)
    ensures
        r == (match got {
            None => Err(LinkFault::Other),
            Some(n) => Ok::<usize, LinkFault>(n),
        }),
{
    match got {
        None => Err(LinkFault::Other),
        Some(n) => Ok(n),
    }
}

} // verus!
