use drop_stream::{DropStream, Notice};
use futures::channel::oneshot::{self, Canceled, Sender};
use futures::executor::block_on;
use futures::stream::{self, Stream, StreamExt};
use futures::task::noop_waker;
use std::task::{Context, Poll};

struct Owned<T: ?Sized>(DropStream<T>);

impl<T: ?Sized> Drop for Owned<T> {
    fn drop(&mut self) {
        let _ = self.0.fire(send);
    }
}

fn send(tx: Sender<()>) -> Result<(), ()> {
    tx.send(())
}

fn poll_once<T: Stream + ?Sized>(wrapper: &mut DropStream<T>) -> Poll<Option<T::Item>> {
    let waker = noop_waker();
    let mut cx = Context::from_waker(&waker);
    wrapper.poll_next(&mut cx, |inner, cx| inner.as_mut().poll_next(cx))
}

fn drain<T: Stream + ?Sized>(wrapper: &mut DropStream<T>) -> Vec<T::Item> {
    block_on(
        stream::poll_fn(|cx| wrapper.poll_next(cx, |inner, cx| inner.as_mut().poll_next(cx)))
            .collect::<Vec<_>>(),
    )
}

#[test]
fn dropping_before_any_poll_signals_the_receiver() {
    let (wrapper, mut rx) = DropStream::new(Box::pin(stream::iter(vec![1, 2, 3])));
    let owned = Owned(wrapper);
    assert_eq!(rx.try_recv(), Ok(None));
    drop(owned);
    assert_eq!(block_on(rx), Ok(()));
}

#[test]
fn dropping_in_the_middle_of_draining_signals_the_receiver() {
    let (wrapper, mut rx) = DropStream::new(Box::pin(stream::iter(vec![1, 2, 3])));
    let mut owned = Owned(wrapper);
    assert_eq!(poll_once(&mut owned.0), Poll::Ready(Some(1)));
    assert_eq!(rx.try_recv(), Ok(None));
    drop(owned);
    assert_eq!(block_on(rx), Ok(()));
}

#[test]
fn drain_then_drop_signals_once_and_loses_nothing() {
    let (wrapper, mut rx) = DropStream::new(Box::pin(stream::iter(vec![1, 2, 3])));
    let mut owned = Owned(wrapper);
    assert_eq!(drain(&mut owned.0), vec![1, 2, 3]);
    assert_eq!(rx.try_recv(), Ok(None));
    drop(owned);
    assert_eq!(rx.try_recv(), Ok(Some(())));
    assert_eq!(rx.try_recv(), Err(Canceled));
}

#[test]
fn the_signal_comes_with_the_end_of_the_scope() {
    let mut rx = {
        let (wrapper, rx) = DropStream::new(Box::pin(stream::iter(vec![1])));
        let mut owned = Owned(wrapper);
        assert_eq!(poll_once(&mut owned.0), Poll::Ready(Some(1)));
        rx
    };
    assert_eq!(rx.try_recv(), Ok(Some(())));
}

#[test]
fn firing_by_hand_delivers_once_and_then_is_silent() {
    let (wrapper, mut rx) = DropStream::new(Box::pin(stream::iter(vec![1, 2, 3])));
    let mut owned = Owned(wrapper);
    assert_eq!(owned.0.fire(send), Notice::Delivered);
    assert!(owned.0.tx.is_none());
    assert_eq!(owned.0.fire(send), Notice::AlreadyFired);
    assert!(owned.0.tx.is_none());
    assert_eq!(rx.try_recv(), Ok(Some(())));
    drop(owned);
    assert_eq!(rx.try_recv(), Err(Canceled));
}

#[test]
fn firing_leaves_the_stream_usable() {
    let (mut wrapper, _rx) = DropStream::new(Box::pin(stream::iter(vec![1, 2, 3])));
    assert_eq!(poll_once(&mut wrapper), Poll::Ready(Some(1)));
    assert_eq!(wrapper.fire(send), Notice::Delivered);
    assert_eq!(drain(&mut wrapper), vec![2, 3]);
}

#[test]
fn dropping_after_the_receiver_is_gone_is_harmless() {
    let (wrapper, rx) = DropStream::new(Box::pin(stream::iter(vec![1, 2, 3])));
    let owned = Owned(wrapper);
    drop(rx);
    drop(owned);
}

#[test]
fn firing_after_the_receiver_is_gone_reports_it() {
    let (mut wrapper, rx) = DropStream::new(Box::pin(stream::iter(vec![1, 2, 3])));
    drop(rx);
    assert_eq!(wrapper.fire(send), Notice::ReceiverGone);
    assert!(wrapper.tx.is_none());
    assert_eq!(wrapper.fire(send), Notice::AlreadyFired);
}

#[test]
fn firing_into_a_closed_receiver_reports_it() {
    let (tx, mut rx) = oneshot::channel::<()>();
    let mut wrapper = DropStream::from_existing_tx(Box::pin(stream::iter(vec![1])), tx);
    rx.close();
    assert_eq!(wrapper.fire(send), Notice::ReceiverGone);
    assert_eq!(rx.try_recv(), Err(Canceled));
}

#[test]
fn a_wrapper_without_its_sender_sends_nothing() {
    let (wrapper, mut rx) = DropStream::new(Box::pin(stream::iter(vec![1, 2, 3])));
    let mut owned = Owned(wrapper);
    let tx = owned.0.tx.take();
    assert_eq!(owned.0.fire(send), Notice::AlreadyFired);
    drop(owned);
    assert_eq!(rx.try_recv(), Ok(None));
    drop(tx);
    assert_eq!(block_on(rx), Err(Canceled));
}

#[test]
fn the_send_is_made_on_the_sender_that_was_given() {
    let (tx, mut rx) = oneshot::channel::<()>();
    let (other_tx, mut other_rx) = oneshot::channel::<()>();
    let owned = Owned(DropStream::from_existing_tx(Box::pin(stream::iter(vec![1, 2])), tx));
    drop(owned);
    assert_eq!(rx.try_recv(), Ok(Some(())));
    assert_eq!(other_rx.try_recv(), Ok(None));
    drop(other_tx);
    assert_eq!(other_rx.try_recv(), Err(Canceled));
}

#[test]
fn the_state_after_firing_is_the_same_heard_or_not() {
    let (mut heard, _rx) = DropStream::new(Box::pin(stream::iter(vec![1, 2])));
    let (mut unheard, gone) = DropStream::new(Box::pin(stream::iter(vec![1, 2])));
    drop(gone);
    assert_eq!(heard.fire(send), Notice::Delivered);
    assert_eq!(unheard.fire(send), Notice::ReceiverGone);
    assert!(heard.tx.is_none());
    assert!(unheard.tx.is_none());
    assert_eq!(drain(&mut heard), vec![1, 2]);
    assert_eq!(drain(&mut unheard), vec![1, 2]);
}

#[test]
fn firing_runs_the_send_once_on_the_sender_it_holds() {
    let (mut wrapper, mut rx) = DropStream::new(Box::pin(stream::iter(vec![1])));
    let mut calls = 0;
    let mut was_paired = false;
    let notice = wrapper.fire(|tx| {
        calls += 1;
        was_paired = tx.is_connected_to(&rx);
        tx.send(())
    });
    assert_eq!(notice, Notice::Delivered);
    assert_eq!(calls, 1);
    assert!(was_paired);
    assert_eq!(rx.try_recv(), Ok(Some(())));
}

#[test]
fn firing_without_a_sender_does_not_run_the_send() {
    let (mut wrapper, _rx) = DropStream::new(Box::pin(stream::iter(vec![1])));
    assert_eq!(wrapper.fire(send), Notice::Delivered);
    let mut calls = 0;
    let notice = wrapper.fire(|tx| {
        calls += 1;
        tx.send(())
    });
    assert_eq!(notice, Notice::AlreadyFired);
    assert_eq!(calls, 0);
}

#[test]
fn the_notice_is_what_the_send_answered() {
    let (mut wrapper, _rx) = DropStream::new(Box::pin(stream::iter(vec![1])));
    assert_eq!(wrapper.fire(|_tx| Err(())), Notice::ReceiverGone);
    let (mut other, _other_rx) = DropStream::new(Box::pin(stream::iter(vec![1])));
    assert_eq!(other.fire(|_tx| Ok(())), Notice::Delivered);
}
