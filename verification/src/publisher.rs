//! The channel through which completed output snapshots leave the thread that
//! aggregates them.
//!
//! The channel is calloop's: its sending end is used here, its receiving end
//! is an event source of the consumer's event loop.

use crate::outputs::Output;
use calloop::channel::Sender;
use vstd::prelude::*;

verus! {

/// The sending end of a calloop channel, `calloop::channel::Sender`. Nothing
/// of its inside is visible to proofs.
#[verifier::external_type_specification]
#[verifier::external_body]
#[verifier::reject_recursive_types(T)]
pub struct ExSender<T>(Sender<T>);

/// Sends `snapshot` with `calloop::channel::Sender::send`.
///
/// The send fails when the receiving end is gone, and then hands back the
/// very value it was given; that is all that is claimed here. Whether it
/// succeeds depends on the receiver and is not stated.
#[verifier::external_body]
pub(crate) fn send(tx: &Sender<Output>, snapshot: Output) -> (outcome: Result<(), Output>)
    ensures
        outcome matches Err(returned) ==> returned == snapshot,
{
    match tx.send(snapshot) {
        Ok(()) => Ok(()),
        Err(refused) => Err(refused.0),
    }
}

} // verus!
