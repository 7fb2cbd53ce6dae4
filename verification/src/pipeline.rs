//! Serialized consumption of an asynchronous sequence of inbound requests.
//!
//! The underlying sequence object lives with the transport layer; the
//! asynchronous host holds it behind a mutex so that at most one poll
//! observes it at a time, and races each poll against the controller's
//! cancellation token. What the poll returns is decided here: the
//! cancellation wins ties, and an exhausted or discarded sequence reports
//! `ServiceClosed` instead of hanging.

use vstd::prelude::*;
use crate::CoreError;
use crate::envelope::NativeRendRequest;
use crate::envelope::NativeStreamRequest;
use crate::envelope::RequestKind;

verus! {

/// The outcome of one poll for a rendezvous request: `cancelled` is
/// whether the shared cancellation flag had fired (it wins ties), and
/// `item` is what the underlying sequence yielded — `None` both when the
/// sequence is exhausted and when it was already discarded.
pub fn resolve_rend_poll<R>(cancelled: bool, item: Option<R>) -> (r: Result<
    NativeRendRequest<R>,
    CoreError,
>)
    ensures
        cancelled ==> r == Err::<NativeRendRequest<R>, CoreError>(CoreError::ServiceClosed),
        !cancelled ==> match item {
            Some(request) => r matches Ok(e) && e.request == Some(request),
            None => r == Err::<NativeRendRequest<R>, CoreError>(CoreError::ServiceClosed),
        },
{
    if cancelled {
        Err(CoreError::ServiceClosed)
    } else {
        match item {
            Some(request) => Ok(NativeRendRequest::from_rend_request(request)),
            None => Err(CoreError::ServiceClosed),
        }
    }
}

/// The outcome of one poll on a stream-level pipeline, under the same
/// rules as the rendezvous level: a fired cancellation wins ties, and an
/// exhausted or discarded sequence reports `ServiceClosed`. A yielded
/// request comes paired with what it asks for, read off as plain values,
/// and is wrapped in a fresh envelope.
pub fn resolve_stream_poll<R>(cancelled: bool, item: Option<(R, RequestKind)>) -> (r: Result<
    NativeStreamRequest<R>,
    CoreError,
>)
    ensures
        cancelled ==> r == Err::<NativeStreamRequest<R>, CoreError>(CoreError::ServiceClosed),
        !cancelled ==> match item {
            Some(pair) => r matches Ok(e) && e.request == Some(pair.0) && e.kind == pair.1,
            None => r == Err::<NativeStreamRequest<R>, CoreError>(CoreError::ServiceClosed),
        },
{
    if cancelled {
        Err(CoreError::ServiceClosed)
    } else {
        match item {
            Some((request, kind)) => Ok(NativeStreamRequest::from_stream_request(request, kind)),
            None => Err(CoreError::ServiceClosed),
        }
    }
}

} // verus!
