//! Why building a client can fail.
use vstd::prelude::*;

verus! {

/// A failure to build a [`crate::Client`]. Nothing is built when one is returned.
#[derive(Clone, Copy, Debug, PartialEq, Eq, Structural)]
pub enum ClientError {
    /// The virtual key holds a byte that may not stand in an HTTP header value.
    HeaderEncoding,
    /// The HTTP transport could not be initialised.
    TransportInit,
}

impl ClientError {
    /// A short description of the failure.
    pub fn message(&self) -> (r: String)
        ensures
            *self == ClientError::HeaderEncoding ==> r@ == "virtual key is not a valid header value"@,
            *self == ClientError::TransportInit ==> r@ == "failed to build the HTTP transport"@,
    {
        match self {
            ClientError::HeaderEncoding => String::from_str("virtual key is not a valid header value"),
            ClientError::TransportInit => String::from_str("failed to build the HTTP transport"),
        }
    }
}

} // verus!
