//! One-shot envelopes around inbound requests.
//!
//! A rendezvous-level envelope wraps one inbound rendezvous attempt, a
//! stream-level envelope one inbound application-stream request. The
//! wrapped request is consumed at most once: the first take yields it,
//! every later take yields nothing, so a second accept, reject or
//! shutdown call becomes an empty result instead of an error.
//!
//! The request objects themselves come from the transport layer and are
//! opaque here; the envelopes are generic over them. The asynchronous host
//! takes the request out and performs the accept or reject exchange.

use vstd::prelude::*;
use crate::copy_bytes;

verus! {

/// What a stream-level request asks for, as plain values: either the start
/// of a new incoming stream bound for an address and port, or some other
/// control request.
#[derive(Debug)]
pub enum RequestKind {
    /// An initial connection-open request for the given destination.
    Begin { addr: Vec<u8>, port: u16 },
    /// A resolve or other control request.
    Other,
}

/// One inbound rendezvous attempt, prior to circuit completion.
#[derive(Debug)]
pub struct NativeRendRequest<R> {
    /// The wrapped request; `None` once the envelope has been consumed.
    pub request: Option<R>,
}

/// The state of an envelope after its request has been taken.
pub open spec fn rend_taken_spec<R>(e: NativeRendRequest<R>) -> NativeRendRequest<R> {
    NativeRendRequest { request: None }
}

impl<R> NativeRendRequest<R> {
    /// Wraps one pending rendezvous request in a fresh envelope.
    pub fn from_rend_request(request: R) -> (r: Self)
        ensures
            r.request == Some(request),
    {
        NativeRendRequest { request: Some(request) }
    }

    /// Consumes the envelope: yields the wrapped request on the first
    /// call and nothing on every later call.
    pub fn take_request(&mut self) -> (r: Option<R>)
        ensures
            r == old(self).request,
            *final(self) == rend_taken_spec(*old(self)),
    {
        self.request.take()
    }
}

/// An envelope is consumed at most once: after the first take, every
/// later take yields nothing, whatever was wrapped to begin with.
pub proof fn lemma_envelope_consumed_once<R>(e: NativeRendRequest<R>)
    ensures
        rend_taken_spec(e).request is None,
        rend_taken_spec(rend_taken_spec(e)) == rend_taken_spec(e),
{
}

/// One inbound application-stream request within an accepted rendezvous,
/// together with what it asks for, held as plain values.
#[derive(Debug)]
pub struct NativeStreamRequest<R> {
    /// The wrapped request; `None` once the envelope has been consumed.
    pub request: Option<R>,
    /// What the request asks for.
    pub kind: RequestKind,
}

/// The state of a stream-level envelope after its request has been taken.
pub open spec fn stream_taken_spec<R>(e: NativeStreamRequest<R>) -> NativeStreamRequest<R> {
    NativeStreamRequest { request: None, ..e }
}

impl<R> NativeStreamRequest<R> {
    /// Wraps one pending stream request in a fresh envelope. The kind is
    /// read off the request by the transport layer and handed over as
    /// plain values.
    pub fn from_stream_request(request: R, kind: RequestKind) -> (r: Self)
        ensures
            r.request == Some(request),
            r.kind == kind,
    {
        NativeStreamRequest { request: Some(request), kind }
    }

    /// True if this is an initial connection-open request and the
    /// envelope has not been consumed yet.
    pub fn is_begin(&self) -> (r: bool)
        ensures
            r == (self.request is Some && self.kind is Begin),
    {
        match (&self.request, &self.kind) {
            (Some(_), RequestKind::Begin { .. }) => true,
            _ => false,
        }
    }

    /// The destination address of a connection-open request; absent for
    /// other requests and for consumed envelopes.
    pub fn addr(&self) -> (r: Option<Vec<u8>>)
        ensures
            match r {
                Some(a) => self.request is Some && (self.kind matches RequestKind::Begin { addr, .. }
                    && a@ == addr@),
                None => !(self.request is Some && self.kind is Begin),
            },
    {
        match (&self.request, &self.kind) {
            (Some(_), RequestKind::Begin { addr, .. }) => Some(copy_bytes(addr)),
            _ => None,
        }
    }

    /// The destination port of a connection-open request; absent for
    /// other requests and for consumed envelopes.
    pub fn port(&self) -> (r: Option<u16>)
        ensures
            match r {
                Some(p) => self.request is Some && (self.kind matches RequestKind::Begin { port, .. }
                    && p == port),
                None => !(self.request is Some && self.kind is Begin),
            },
    {
        match (&self.request, &self.kind) {
            (Some(_), RequestKind::Begin { port, .. }) => Some(*port),
            _ => None,
        }
    }

    /// Consumes the envelope: yields the wrapped request on the first
    /// call and nothing on every later call.
    pub fn take_request(&mut self) -> (r: Option<R>)
        ensures
            r == old(self).request,
            *final(self) == stream_taken_spec(*old(self)),
    {
        self.request.take()
    }
}

/// A stream-level envelope is consumed at most once, and consuming it does
/// not change what the request asked for.
pub proof fn lemma_stream_envelope_consumed_once<R>(e: NativeStreamRequest<R>)
    ensures
        stream_taken_spec(e).request is None,
        stream_taken_spec(e).kind == e.kind,
        stream_taken_spec(stream_taken_spec(e)) == stream_taken_spec(e),
{
}

} // verus!
