//! Shared cancellation flags.
//!
//! A session stream and a service controller each own a cancellation token;
//! raising it is one-shot and permanent, and the asynchronous host races it
//! against blocked operations (with the cancellation side winning ties, see
//! the biased resolution functions of the stream and pipeline modules).

use vstd::prelude::*;
use tokio_util::sync::CancellationToken;

verus! {

/// Declares tokio_util's cancellation token so that it can stand in fields
/// and signatures. Its shared state is not modelled: the library tracks
/// closing in its own fields and only raises the token.
#[verifier::external_type_specification]
#[verifier::external_body]
pub struct ExCancellationToken(CancellationToken);

/// Relies on CancellationToken::new: a fresh, not yet cancelled token.
#[verifier::external_body]
pub(crate) fn new_token() -> CancellationToken {
    CancellationToken::new()
}

/// Relies on CancellationToken::cancel: raises the flag on this token and
/// every clone of it, waking all tasks that wait for cancellation.
#[verifier::external_body]
pub(crate) fn cancel_token(token: &CancellationToken) {
    token.cancel()
}

/// Relies on CancellationToken::clone: a second handle on the same flag;
/// cancelling either handle cancels both.
#[verifier::external_body]
pub(crate) fn clone_token(token: &CancellationToken) -> CancellationToken {
    token.clone()
}

} // verus!
