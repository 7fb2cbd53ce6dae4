//! Session-and-service lifecycle layer of an anonymized-network client.
//!
//! The crate has two halves. The address codec derives the textual address
//! of a hidden service from an ed25519 public key, reconstructs key pairs
//! from a 32-byte secret, and brute-force searches for vanity addresses.
//! The lifecycle half models byte-stream sessions, one-shot inbound request
//! envelopes, request pipelines and the service controller: which operation
//! is permitted in which state, how closing and cancellation change the
//! state, and which error each refused operation reports.
//!
//! The network transport itself is an external collaborator: the session
//! and request types are generic over the transport objects they carry and
//! an asynchronous host drives the actual I/O.

use vstd::prelude::*;

pub mod cancel;
pub mod config;
pub mod envelope;
pub mod onion_v3;
pub mod pipeline;
pub mod service;
pub mod stream;

verus! {

/// The error taxonomy of the library.
///
/// `Transport` carries the message of a failure reported by the transport
/// layer; every other variant is raised by the library itself.
#[derive(Debug, PartialEq, Eq)]
pub enum CoreError {
    /// An operation was attempted on a session stream after it was closed,
    /// or a blocked operation was abandoned because the stream was closed.
    StreamClosed,
    /// A second transport-security upgrade was attempted on a stream that
    /// is already secured.
    AlreadySecured,
    /// An externally supplied secret key had the wrong length.
    InvalidKeyLength,
    /// A pipeline operation was attempted after the service was closed, or
    /// the underlying request sequence was exhausted.
    ServiceClosed,
    /// The service reached the terminal `Broken` state while being waited on.
    ServiceBroken,
    /// The deadline elapsed before the service reached the `Running` state.
    ServiceStartTimeout,
    /// A failure reported by the transport layer, carried as its message.
    Transport(String),
}

/// Copies a byte vector element by element.
pub(crate) fn copy_bytes(src: &Vec<u8>) -> (r: Vec<u8>)
    ensures
        r@ == src@,
{
    let mut out: Vec<u8> = Vec::new();
    let n = src.len();
    let mut i: usize = 0;
    while i < n
        invariant
            n == src@.len(),
            i <= n,
            out@ == src@.take(i as int),
        decreases n - i,
    {
        out.push(src[i]);
        assert(out@ =~= src@.take(i as int + 1));
        i += 1;
    }
    assert(out@ =~= src@);
    out
}

} // verus!
