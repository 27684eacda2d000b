//! The error kinds the client distinguishes.

use vstd::prelude::*;

verus! {

/// What went wrong while resolving services or reading a counter.
///
/// Transport-level failures (socket errors, discovery timeouts, HTTP
/// failures) are reported by the I/O layer that drives this library; the
/// kinds here are the ones the protocol logic itself can decide.
#[derive(Debug, Clone, Copy, PartialEq, Eq, Structural)]
pub enum UpnpError {
    /// No device has been discovered yet, so no query can be made.
    NoDevice,
    /// A device was discovered but exposes no usable control URL.
    NoServiceUrl,
    /// The description document lists no WAN common-interface service.
    ServiceNotFound,
    /// The SOAP response ended without the requested element.
    ElementNotFound,
    /// The requested element was present but its text is not an unsigned
    /// 64-bit decimal number.
    ValueParseError,
}

impl UpnpError {
    /// A short human-readable description of the error.
    pub fn message(&self) -> (r: &'static str)
        ensures
            r@ == spec_message(*self),
    {
        match self {
            UpnpError::NoDevice => "No device configured",
            UpnpError::NoServiceUrl => "No WANCommonInterfaceConfig service URL",
            UpnpError::ServiceNotFound => "WANCommonInterfaceConfig service not found",
            UpnpError::ElementNotFound => "Element not found in response",
            UpnpError::ValueParseError => "Failed to parse element value",
        }
    }
}

/// The description text for each error kind.
pub open spec fn spec_message(e: UpnpError) -> Seq<char> {
    match e {
        UpnpError::NoDevice => "No device configured"@,
        UpnpError::NoServiceUrl => "No WANCommonInterfaceConfig service URL"@,
        UpnpError::ServiceNotFound => "WANCommonInterfaceConfig service not found"@,
        UpnpError::ElementNotFound => "Element not found in response"@,
        UpnpError::ValueParseError => "Failed to parse element value"@,
    }
}

} // verus!
