use vstd::prelude::*;

verus! {

/// The sending half of an unbounded channel (`tokio::sync::mpsc::UnboundedSender`),
/// held opaque: it is only carried and handed to `send_unbounded`.
#[verifier::external_type_specification]
#[verifier::external_body]
#[verifier::reject_recursive_types(T)]
pub struct ExUnboundedSender<T>(tokio::sync::mpsc::UnboundedSender<T>);

/// Sends `message` with `tokio::sync::mpsc::UnboundedSender::send`.
///
/// When the receiving half is closed the send fails and tokio hands the
/// message back in `SendError(message)`; it is returned here as `Err(message)`.
/// Whether the send succeeds depends on the receiver, not on the arguments, so
/// `Ok` carries no further fact. tokio aborts the process if the channel's
/// message count overflows; that case is not part of the contract.
#[verifier::external_body]
pub(crate) fn send_unbounded<T>(tx: &tokio::sync::mpsc::UnboundedSender<T>, message: T) -> (r: Result<(), T>)
    ensures
        r matches Err(returned) ==> returned == message,
{
    match tx.send(message) {
        Ok(()) => Ok(()),
        Err(e) => Err(e.0),
    }
}

} // verus!
