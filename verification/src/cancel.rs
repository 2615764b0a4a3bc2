//! The shutdown signal, carried by a `tokio_util` cancellation token.
//!
//! A token is shared between clones: cancelling one cancels them all, from
//! any thread. Whether a token is cancelled is therefore not a property of
//! the token value held here, and the items below promise nothing of it.
use vstd::prelude::*;
use tokio_util::sync::CancellationToken;

verus! {

#[verifier::external_type_specification]
#[verifier::external_body]
pub struct ExCancellationToken(CancellationToken);

/// Calls `CancellationToken::new`, which makes a token in the non-cancelled
/// state. Nothing is claimed of the result.
#[verifier::external_body]
pub(crate) fn new_token() -> (t: CancellationToken) {
    CancellationToken::new()
}

/// Calls `CancellationToken::cancel`, which cancels this token, every clone of
/// it and every child token. Nothing is claimed.
#[verifier::external_body]
pub(crate) fn cancel_token(t: &CancellationToken) {
    t.cancel()
}

/// Calls `CancellationToken::is_cancelled`. Nothing is claimed of the result:
/// it depends on every clone of the token, which other threads may cancel.
#[verifier::external_body]
pub(crate) fn token_is_cancelled(t: &CancellationToken) -> (b: bool) {
    t.is_cancelled()
}

/// Calls `CancellationToken::clone`, which returns a token holding the same
/// shared node as `t` (tokio-util's own `PartialEq` calls the two equal):
/// cancelling either cancels both. Claimed: the result is `t` itself.
#[verifier::external_body]
pub(crate) fn share_token(t: &CancellationToken) -> (c: CancellationToken)
    ensures
        c == *t,
{
    t.clone()
}

} // verus!
