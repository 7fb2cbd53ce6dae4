//! Byte-stream sessions with in-place transport-security upgrade.
//!
//! A session stream owns exactly one underlying transport, which is either
//! still plain or already secured, and a cancellation token. Once secured
//! it can never be re-wrapped or reverted; once closed, every operation is
//! refused with `StreamClosed` and the transport has been released.
//!
//! Reading, writing, flushing and the security handshake suspend, so the
//! asynchronous host performs them: it takes the transport out, awaits the
//! exchange, and restores the transport, racing its read against the
//! cancellation token with [`resolve_read`] as the tie-break rule.

use vstd::prelude::*;
use tokio_util::sync::CancellationToken;
use crate::CoreError;
use crate::cancel;

verus! {

/// Declares tokio_rustls's unified TLS stream so that a secured transport
/// can stand in fields and signatures; its inside is opaque here.
#[verifier::external_type_specification]
#[verifier::external_body]
#[verifier::reject_recursive_types(T)]
pub struct ExTlsStream<T>(tokio_rustls::TlsStream<T>);

/// The two mutually exclusive forms of an owned transport: still plain,
/// or upgraded to carry transport security.
#[derive(Debug)]
#[verifier::reject_recursive_types(S)]
pub enum MaybeTlsStream<S> {
    /// The established transport as handed in by the transport layer.
    Plain(S),
    /// The same transport wrapped in a negotiated security layer.
    Tls(Box<tokio_rustls::TlsStream<S>>),
}

/// One established connection: the owned transport (absent once released
/// or while the host holds it for an exchange), the closed flag, and the
/// cancellation token that a close raises.
#[verifier::reject_recursive_types(S)]
pub struct NativeTorStream<S> {
    /// The owned transport; `None` once released or while taken for I/O.
    pub transport: Option<MaybeTlsStream<S>>,
    /// Set by `close`, never cleared.
    pub closed: bool,
    /// Raised by `close`; the host races blocked reads against it.
    pub cancel: CancellationToken,
}

/// Well-formedness: a closed stream has released its transport.
pub open spec fn stream_wf<S>(s: NativeTorStream<S>) -> bool {
    s.closed ==> s.transport is None
}

/// The state of a stream after `close`: transport released, flag set.
pub open spec fn close_spec<S>(s: NativeTorStream<S>) -> NativeTorStream<S> {
    NativeTorStream { transport: None, closed: true, ..s }
}

impl<S> NativeTorStream<S> {
    /// Wraps one established transport in a fresh, plain, open stream.
    pub fn from_stream(stream: S) -> (r: Self)
        ensures
            r.transport == Some(MaybeTlsStream::Plain(stream)),
            !r.closed,
            stream_wf(r),
    {
        NativeTorStream { transport: Some(MaybeTlsStream::Plain(stream)), closed: false, cancel: cancel::new_token() }
    }

    /// A handle on this stream's cancellation token, for the host to race
    /// blocked reads against.
    pub fn cancellation_handle(&self) -> CancellationToken {
        cancel::clone_token(&self.cancel)
    }

    /// Closes the stream: releases the transport and raises the
    /// cancellation token so a concurrently blocked read unblocks with
    /// `StreamClosed`. Idempotent and safe to call from a finalizer.
    pub fn close(&mut self)
        ensures
            *final(self) == close_spec(*old(self)),
            stream_wf(*final(self)),
    {
        self.transport = None;
        self.closed = true;
        cancel::cancel_token(&self.cancel);
    }

    /// Hands the transport to the host for one read, write or flush
    /// exchange; fails with `StreamClosed` if the stream was closed or the
    /// transport is already out.
    pub fn take_transport(&mut self) -> (r: Result<MaybeTlsStream<S>, CoreError>)
        ensures
            match old(self).transport {
                Some(t) => r == Ok::<MaybeTlsStream<S>, CoreError>(t)
                    && *final(self) == (NativeTorStream { transport: None, ..*old(self) }),
                None => r == Err::<MaybeTlsStream<S>, CoreError>(CoreError::StreamClosed)
                    && *final(self) == *old(self),
            },
    {
        match self.transport.take() {
            Some(t) => Ok(t),
            None => Err(CoreError::StreamClosed),
        }
    }

    /// Returns the transport after an exchange. If the stream was closed
    /// in the meantime the transport is released instead, so that a close
    /// stays permanent.
    pub fn restore_transport(&mut self, t: MaybeTlsStream<S>)
        ensures
            old(self).closed ==> *final(self) == *old(self),
            !old(self).closed ==> *final(self) == (NativeTorStream { transport: Some(t), ..*old(self) }),
            stream_wf(*old(self)) ==> stream_wf(*final(self)),
    {
        if !self.closed {
            self.transport = Some(t);
        }
    }

    /// Starts a connection-confirmation wait: yields the plain transport
    /// for the host to wait on. The wait is only meaningful before the
    /// security upgrade, so a stream in any other state — already
    /// secured, closed, or with its transport out — answers
    /// `StreamClosed`.
    pub fn begin_wait_for_connection(&mut self) -> (r: Result<S, CoreError>)
        ensures
            match old(self).transport {
                Some(MaybeTlsStream::Plain(s)) => r == Ok::<S, CoreError>(s)
                    && *final(self) == (NativeTorStream { transport: None, ..*old(self) }),
                Some(MaybeTlsStream::Tls(_)) => r == Err::<S, CoreError>(CoreError::StreamClosed)
                    && *final(self) == *old(self),
                None => r == Err::<S, CoreError>(CoreError::StreamClosed)
                    && *final(self) == *old(self),
            },
    {
        match self.transport.take() {
            Some(MaybeTlsStream::Plain(s)) => Ok(s),
            Some(MaybeTlsStream::Tls(t)) => {
                self.transport = Some(MaybeTlsStream::Tls(t));
                Err(CoreError::StreamClosed)
            },
            None => Err(CoreError::StreamClosed),
        }
    }

    /// Starts a transport-security upgrade: yields the plain transport for
    /// the host to run the handshake on. Fails with `AlreadySecured` if the
    /// stream is already secured and `StreamClosed` if it was closed or the
    /// transport is out.
    pub fn begin_enable_tls(&mut self) -> (r: Result<S, CoreError>)
        ensures
            match old(self).transport {
                Some(MaybeTlsStream::Plain(s)) => r == Ok::<S, CoreError>(s)
                    && *final(self) == (NativeTorStream { transport: None, ..*old(self) }),
                Some(MaybeTlsStream::Tls(_)) => r == Err::<S, CoreError>(CoreError::AlreadySecured)
                    && *final(self) == *old(self),
                None => r == Err::<S, CoreError>(CoreError::StreamClosed)
                    && *final(self) == *old(self),
            },
    {
        match self.transport.take() {
            Some(MaybeTlsStream::Plain(s)) => Ok(s),
            Some(MaybeTlsStream::Tls(t)) => {
                self.transport = Some(MaybeTlsStream::Tls(t));
                Err(CoreError::AlreadySecured)
            },
            None => Err(CoreError::StreamClosed),
        }
    }

    /// Finishes a successful transport-security upgrade: the stream's form
    /// becomes secured, one-way. If the stream was closed during the
    /// handshake the secured transport is released instead.
    pub fn finish_enable_tls(&mut self, tls: Box<tokio_rustls::TlsStream<S>>)
        ensures
            old(self).closed ==> *final(self) == *old(self),
            !old(self).closed ==> *final(self) == (NativeTorStream {
                transport: Some(MaybeTlsStream::Tls(tls)),
                ..*old(self)
            }),
            stream_wf(*old(self)) ==> stream_wf(*final(self)),
    {
        if !self.closed {
            self.transport = Some(MaybeTlsStream::Tls(tls));
        }
    }
}

/// The tie-break rule for a read racing the cancellation token: if the
/// cancellation fired, the read's own outcome is abandoned and the result
/// is `StreamClosed`, even when data became ready at the same instant.
pub fn resolve_read(cancelled: bool, outcome: Result<Vec<u8>, CoreError>) -> (r: Result<
    Vec<u8>,
    CoreError,
>)
    ensures
        cancelled ==> r == Err::<Vec<u8>, CoreError>(CoreError::StreamClosed),
        !cancelled ==> r == outcome,
{
    if cancelled {
        Err(CoreError::StreamClosed)
    } else {
        outcome
    }
}

/// Closing is terminal and idempotent: a closed stream stays closed, its
/// transport stays released — so every later read, write, flush or upgrade
/// is refused with `StreamClosed` — and closing again changes nothing.
pub proof fn lemma_close_terminal<S>(s: NativeTorStream<S>)
    ensures
        close_spec(s).closed,
        close_spec(s).transport is None,
        close_spec(close_spec(s)) == close_spec(s),
        stream_wf(close_spec(s)),
{
}

} // verus!
