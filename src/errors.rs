use vstd::prelude::*;

verus! {

/// Every way an operation of a session, a registry or a device can fail.
#[derive(Debug, PartialEq, Eq)]
pub enum GpibControllerError {
    /// The network read or write failed; holds the description of the failure.
    TransportError(String),
    /// Bytes received from the adapter are not valid UTF-8 text.
    MalformedResponse,
    /// A response expected to hold a small unsigned integer did not.
    IntegerParseError,
    /// A single response did not fit in the receive buffer.
    BufferOverflow,
    /// The given GPIB address lies outside 0..=30 and 96..=126.
    InvalidAddress(u8),
    /// The device was not registered with this registry.
    UnknownDevice(u8),
}

} // verus!
