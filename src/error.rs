//! The ways a fetch can fail.
use vstd::prelude::*;

verus! {

/// Which part of a request description made it unusable.
#[derive(Clone, Copy, Debug, PartialEq, Eq, Structural)]
pub enum InvalidReason {
    /// The method is not an HTTP method token.
    Method,
    /// The URL does not parse as an absolute URL with a host.
    Url,
    /// The referrer cannot be sent as a header value.
    Referrer,
    /// The body claims to be binary but is not valid base64.
    Body,
}

/// A failed fetch: never sent, sent but failed in transfer, or received but
/// not representable.
#[derive(Debug)]
pub enum FetchError {
    /// The description was refused before any network activity.
    InvalidRequest(InvalidReason),
    /// The transport failed; the message is passed through.
    Transport(String),
    /// The envelope could not be turned into its wire form.
    Internal(String),
}

} // verus!
