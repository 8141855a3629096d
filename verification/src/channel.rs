//! The one-shot channel of the `futures` crate, as far as the wrapper needs
//! it. Nothing here is proved: these are the assumptions that the proofs in
//! the rest of the crate stand on.
//!
//! The send itself is not among them. A sender is dropped inside its own
//! `send`, and its destructor wakes whatever waker the holder of the
//! receiver parked in the channel; whether that returns is for the holder to
//! say. So [`crate::DropStream::fire`] takes the send from its caller.

use futures::channel::oneshot::{Canceled, Receiver, Sender};
use vstd::prelude::*;

verus! {

/// `futures::channel::oneshot::Sender`, carried as an opaque value.
#[verifier::external_type_specification]
#[verifier::external_body]
#[verifier::reject_recursive_types(T)]
pub struct ExSender<T>(Sender<T>);

/// `futures::channel::oneshot::Receiver`, carried as an opaque value.
#[verifier::external_type_specification]
#[verifier::external_body]
#[verifier::reject_recursive_types(T)]
pub struct ExReceiver<T>(Receiver<T>);

/// `futures::channel::oneshot::Canceled`, which a receiver resolves to when
/// its sender went away unused. No function of this crate handles one. The
/// declaration is here because `Receiver` is a future whose output mentions
/// the type, and Verus reads that output along with `Receiver` itself:
/// without this declaration it refuses the receiver.
#[verifier::external_type_specification]
#[verifier::external_body]
pub struct ExCanceled(Canceled);

/// What `Sender::is_connected_to` answers for a sender and a receiver:
/// whether the two were created by the same call of
/// `futures::channel::oneshot::channel`.
pub uninterp spec fn connected(tx: Sender<()>, rx: Receiver<()>) -> bool;

/// Calls `futures::channel::oneshot::channel`. The two halves it returns
/// belong to one channel; no more is claimed of them.
#[verifier::external_body]
pub(crate) fn open_channel() -> (pair: (Sender<()>, Receiver<()>))
    ensures
        connected(pair.0, pair.1),
{
    futures::channel::oneshot::channel()
}

/// Calls `Sender::is_connected_to`, which compares the channel that the
/// sender belongs to with that of the receiver.
#[verifier::external_body]
pub(crate) fn is_connected(tx: &Sender<()>, rx: &Receiver<()>) -> (same: bool)
    ensures
        same == connected(*tx, *rx),
{
    tx.is_connected_to(rx)
}

} // verus!
