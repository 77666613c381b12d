use vstd::prelude::*;

verus! {

/// Errors the device-controller interface reports to its caller.
#[derive(Clone, Copy, Debug, PartialEq, Eq, Structural)]
pub enum UsbError {
    /// The endpoint address names no hardware endpoint, or the hardware
    /// rejected the requested endpoint configuration.
    InvalidEndpoint,
    /// Transient: the endpoint's FIFO is not ready for the requested
    /// direction. A retry signal, not a failure.
    WouldBlock,
    /// The caller's buffer is larger than the endpoint's configured size.
    BufferOverflow,
    /// A requested or stored size code lies outside the supported set of
    /// FIFO buckets.
    EndpointMemoryOverflow,
}

/// Outcome of a non-blocking poll for bus events. In this driver generation
/// event delivery is interrupt-driven and not surfaced through the poll,
/// which therefore always reports that nothing new happened.
#[derive(Clone, Copy, Debug, PartialEq, Eq, Structural)]
pub enum PollResult {
    /// No new bus event.
    NoEvent,
}

} // verus!
