//! The wrapper itself: construction, forwarding and teardown.

use crate::channel::{connected, is_connected, open_channel};
use futures::channel::oneshot::{Receiver, Sender};
use std::pin::Pin;
use std::task::{Context, Poll};
use vstd::prelude::*;

verus! {

/// What firing the signal came to.
#[derive(Debug, Clone, Copy, PartialEq, Eq, Structural)]
pub enum Notice {
    /// The signal was enqueued for the receiver.
    Delivered,
    /// A send was attempted, but the receiver was already gone.
    ReceiverGone,
    /// The sender had been used before; nothing was sent.
    AlreadyFired,
}

impl Notice {
    /// The notice that answers to what the channel said of a send.
    pub open spec fn of_send(sent: Result<(), ()>) -> Notice {
        match sent {
            Ok(_) => Notice::Delivered,
            Err(_) => Notice::ReceiverGone,
        }
    }

    /// Reads the channel's answer to a send: `Ok` means the signal was
    /// enqueued, `Err` that nobody was left to hear it.
    pub fn from_send(sent: Result<(), ()>) -> (notice: Notice)
        ensures
            notice == Notice::of_send(sent),
    {
        match sent {
            Ok(_) => Notice::Delivered,
            Err(_) => Notice::ReceiverGone,
        }
    }
}

/// Stream wrapper that sends a message to a one-shot receiver upon being
/// torn down.
///
/// Teardown is [`DropStream::fire`], and the owner runs it: a destructor
/// must not unwind, and a send on the channel runs wakers that the holder of
/// the receiver chose, so the type has no destructor of its own. A wrapper
/// that is let go unfired lets go of its sender unused.
#[derive(Debug)]
#[verifier::reject_recursive_types(T)]
pub struct DropStream<T: ?Sized> {
    /// The wrapped stream; it goes away together with the wrapper.
    pub stream: Pin<Box<T>>,
    /// The sender, until teardown takes it out to send on it.
    pub tx: Option<Sender<()>>,
}

/// `poll` may be run on a borrow of a stream that stands as `stream`, with a
/// borrow of a context that stands as `cx`.
pub open spec fn accepts<'a, T: ?Sized, I, F>(poll: F, stream: Pin<Box<T>>, cx: Context<'a>) -> bool
    where F: FnOnce(&mut Pin<Box<T>>, &mut Context<'_>) -> Poll<Option<I>>
{
    forall|s: &mut Pin<Box<T>>, c: &mut Context<'a>|
        mut_ref_current(s) == stream && mut_ref_current(c) == cx
        ==> call_requires(poll, (s, c))
}

impl<T: ?Sized> DropStream<T> {
    /// Whether the sender is still held, so that teardown has one to send
    /// on.
    pub open spec fn armed(&self) -> bool {
        self.tx is Some
    }

    /// Firing with `send`: the stream is left alone and the sender is gone
    /// afterwards. If there was a sender, `send` was run on that very
    /// sender and the notice tells what it answered; if there was none,
    /// nothing was sent and the notice says so.
    pub open spec fn fires<S>(&self, send: S, after: &Self, notice: Notice) -> bool
        where S: FnOnce(Sender<()>) -> Result<(), ()>
    {
        &&& after.stream == self.stream
        &&& after.tx is None
        &&& match self.tx {
            Some(tx) => exists|sent: Result<(), ()>|
                #[trigger] call_ensures(send, (tx,), sent) && notice == Notice::of_send(sent),
            None => notice is AlreadyFired,
        }
    }

    /// Whether tearing the wrapper down signals `rx`: the sender is still
    /// held, and it belongs to the channel of `rx`.
    pub open spec fn signals(&self, rx: Receiver<()>) -> bool {
        self.tx is Some && connected(self.tx->0, rx)
    }

    /// Wraps `stream` and mints a fresh channel; the receiver is returned
    /// beside the wrapper.
    pub fn new(stream: Pin<Box<T>>) -> (made: (DropStream<T>, Receiver<()>))
        ensures
            made.0.stream == stream,
            made.0.signals(made.1),
    {
        let (tx, rx) = open_channel();
        (DropStream { stream, tx: Some(tx) }, rx)
    }

    /// Given an existing stream and sender, create a `DropStream` wrapper.
    pub fn from_existing_tx(stream: Pin<Box<T>>, tx: Sender<()>) -> (made: DropStream<T>)
        ensures
            made.stream == stream,
            made.tx == Some(tx),
    {
        DropStream { stream, tx: Some(tx) }
    }

    /// Wraps `stream`, mints a fresh channel and hands its receiver,
    /// together with the follow-up `future`, to `spawn`. That function is to
    /// start a task which waits for the receiver and then runs the
    /// follow-up; it is run once, before the wrapper is returned, and the
    /// wrapper keeps the sender of the receiver that was handed over.
    pub fn new_closure<Fut, S>(stream: Pin<Box<T>>, future: Fut, spawn: S) -> (made: DropStream<T>)
        where S: FnOnce(Receiver<()>, Fut)
        requires
            forall|rx: Receiver<()>| call_requires(spawn, (rx, future)),
        ensures
            made.stream == stream,
            exists|rx: Receiver<()>|
                #[trigger] made.signals(rx) && call_ensures(spawn, (rx, future), ()),
    {
        let (tx, rx) = open_channel();
        let ghost handed = rx;
        spawn(rx, future);
        let made = DropStream { stream, tx: Some(tx) };
        assert(made.signals(handed));
        made
    }

    /// Polls the inner stream with `poll` and hands its answer on unchanged.
    ///
    /// `poll` is run once, on the inner stream and on `cx`. Whatever it
    /// answers is the answer of the wrapper, whatever it does to the stream
    /// and to the context is all that happens to them, and the sender stays
    /// where it is.
    pub fn poll_next<I, F>(&mut self, cx: &mut Context<'_>, poll: F) -> (polled: Poll<Option<I>>)
        where F: FnOnce(&mut Pin<Box<T>>, &mut Context<'_>) -> Poll<Option<I>>
        requires
            accepts(poll, old(self).stream, *old(cx)),
        ensures
            final(self).tx == old(self).tx,
            exists|s: &mut Pin<Box<T>>, c: &mut Context<'_>|
                mut_ref_current(s) == old(self).stream && mut_ref_future(s) == final(self).stream
                && mut_ref_current(c) == *old(cx) && mut_ref_future(c) == *final(cx)
                && call_ensures(poll, (s, c), polled),
    {
        poll(&mut self.stream, cx)
    }

    /// Whether tearing the wrapper down will signal `rx`.
    pub fn notifies(&self, rx: &Receiver<()>) -> (yes: bool)
        ensures
            yes == self.signals(*rx),
    {
        match &self.tx {
            Some(tx) => is_connected(tx, rx),
            None => false,
        }
    }

    /// Fires the signal if it has not been fired yet, and tells what came of
    /// it. `send` is the channel's send, `|tx| tx.send(())`. A sender that is
    /// held is handed to it, once, and is used up by that, so that no second
    /// send can follow; without a sender `send` is not run. A receiver that
    /// is gone is no failure: the notice says so and nothing else happens.
    pub fn fire<S>(&mut self, send: S) -> (notice: Notice)
        where S: FnOnce(Sender<()>) -> Result<(), ()>
        requires
            old(self).tx is Some ==> call_requires(send, (old(self).tx->0,)),
        ensures
            old(self).fires(send, final(self), notice),
    {
        match self.tx.take() {
            Some(tx) => Notice::from_send(send(tx)),
            None => Notice::AlreadyFired,
        }
    }
}

} // verus!
