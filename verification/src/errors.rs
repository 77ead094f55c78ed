//! The error taxonomy of the bridge: transport failures are propagated
//! unchanged, caller contract violations are rejected as invalid arguments.
//! A non-2xx HTTP status is data, not an error.

use vstd::prelude::*;

verus! {

/// A failure raised by the transport port, such as a connection failure.
/// It carries the transport's own description and is propagated to callers
/// without retry or fallback.
#[derive(Debug)]
pub struct TransportError {
    message: String,
}

impl TransportError {
    /// The description of the failure, as the transport reported it.
    pub closed spec fn spec_message(&self) -> Seq<char> {
        self.message@
    }

    pub fn new(message: String) -> (r: TransportError)
        ensures
            r.spec_message() == message@,
    {
        TransportError { message }
    }

    pub fn message(&self) -> (r: String)
        ensures
            r@ == self.spec_message(),
    {
        self.message.clone()
    }
}

/// What can go wrong in a bridge operation.
#[derive(Debug)]
pub enum BridgeError {
    /// The transport port failed; the failure is carried unchanged.
    Transport(TransportError),
    /// The caller violated the operation's contract, for example by asking
    /// for chunks of size zero.
    InvalidArgument(String),
}

impl BridgeError {
    pub fn message(&self) -> (r: String)
        ensures
            self is Transport ==> r@ == self->Transport_0.spec_message(),
            self is InvalidArgument ==> r@ == self->InvalidArgument_0@,
    {
        match self {
            BridgeError::Transport(e) => e.message(),
            BridgeError::InvalidArgument(m) => m.clone(),
        }
    }
}

} // verus!
