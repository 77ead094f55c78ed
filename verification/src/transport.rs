//! The transport port: the injected capability that performs the actual
//! network request. The bridge never opens its own connection; the host
//! supplies an implementation, and test doubles implement the same interface
//! synchronously.

use vstd::prelude::*;
use crate::errors::TransportError;

verus! {

/// What the transport hands back for a request: the numeric status code if
/// the response carried a parseable one, the response headers (passed
/// through opaquely), and the body bytes.
pub struct TransportResponse {
    pub status: Option<u16>,
    pub headers: Vec<(String, String)>,
    pub data: Vec<u8>,
}

/// The status to record for a response: its own code, or 200 where the
/// response carried none.
pub open spec fn effective_status_spec(status: Option<u16>) -> u16 {
    match status {
        Some(v) => v,
        None => 200,
    }
}

pub fn effective_status(status: Option<u16>) -> (r: u16)
    ensures
        r == effective_status_spec(status),
{
    match status {
        Some(v) => v,
        None => 200,
    }
}

/// An HTTP-like requester. Nothing is assumed of its behaviour: every
/// caller states what holds of whatever outcome comes back.
pub trait TransportPort {
    /// Request `url` with the given method; yields the response, or the
    /// transport's own failure unchanged.
    fn request(&mut self, url: &str, method: &str) -> Result<TransportResponse, TransportError>;
}

} // verus!
