//! The errors of the plugin.

use vstd::prelude::*;

verus! {

/// What went wrong.
#[derive(Clone, Copy, Debug, PartialEq, Eq, Structural)]
pub enum ErrorKind {
    /// A text is no URL.
    InvalidUrl,
    /// A URL has no host.
    NoHost,
    /// The merchant's endpoint does not use https.
    NotHttps,
    /// The merchant's endpoint lies at an origin that the operator did not choose.
    ForeignOrigin,
    /// The merchant's profile lacks the service.
    MissingService,
    /// The merchant's service names no usable endpoint.
    NoTransport,
    /// The merchant's profile lacks a required capability.
    MissingCapability,
    /// The merchant's profile states no capabilities at all.
    NoCapabilities,
    /// The operator configured a tool without the merchant's address.
    MissingMerchantUrl,
    /// A request did not reach the merchant.
    RequestFailed,
    /// A reply came from an address that is not to be trusted.
    AddressBlocked,
    /// A reply could not be read.
    Unreadable,
    /// The merchant answered with an HTTP error.
    HttpError,
    /// The merchant's reply to a new checkout lacks its id.
    MissingSessionId,
}

/// An error with the message that tells of it.
#[derive(Debug)]
pub struct UcpError {
    pub kind: ErrorKind,
    pub message: String,
}

/// What an error says.
#[verifier::ext_equal]
pub struct ErrorView {
    pub kind: ErrorKind,
    pub message: Seq<char>,
}

impl View for UcpError {
    type V = ErrorView;

    open spec fn view(&self) -> ErrorView {
        ErrorView { kind: self.kind, message: self.message@ }
    }
}

impl UcpError {
    pub fn new(kind: ErrorKind, message: String) -> (r: UcpError)
        ensures
            r@ == (ErrorView { kind, message: message@ }),
    {
        UcpError { kind, message }
    }

    /// The message.
    pub fn to_string(&self) -> (r: String)
        ensures
            r@ == self@.message,
    {
        self.message.clone()
    }
}

} // verus!
