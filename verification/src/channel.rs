//! The queues that carry items out of the hub: unbounded channels of tokio.

use vstd::prelude::*;
use tokio::sync::mpsc::UnboundedSender;

verus! {

/// The sending half of an unbounded channel. Nothing inside it is visible to
/// the proofs: a value of this type is only stored, compared with itself and
/// handed to [`offer`].
#[verifier::external_type_specification]
#[verifier::external_body]
#[verifier::reject_recursive_types(T)]
pub struct ExUnboundedSender<T>(UnboundedSender<T>);

/// Calls `UnboundedSender::send`, which never waits, and tells whether the
/// channel took the item. It refuses once the receiving half has been closed
/// or dropped, which depends on what the receiving task has done, so nothing
/// is claimed of the answer.
#[verifier::external_body]
pub(crate) fn offer<T>(channel: &UnboundedSender<T>, item: T) -> (accepted: bool) {
    channel.send(item).is_ok()
}

} // verus!
