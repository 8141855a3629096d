//! What holds of a wrapper over its whole life: any number of polls, then
//! teardown.
//!
//! A life is written down as the wrapper's first state and one [`Polling`]
//! record for each poll, in order. The contract of
//! [`DropStream::poll_next`] says what one such record looks like, the
//! contract of [`DropStream::fire`] what teardown does to the state it
//! finds; the laws below put the two together.

use crate::channel::connected;
use crate::stream::{DropStream, Notice};
use futures::channel::oneshot::{Receiver, Sender};
use std::pin::Pin;
use std::task::{Context, Poll};
use vstd::prelude::*;

verus! {

/// One poll of a wrapper, as it looks from outside: the wrapper and the
/// context before and after, the polling function, and the answer. Only
/// proofs make values of this type.
#[verifier::reject_recursive_types(T)]
#[verifier::reject_recursive_types(I)]
pub struct Polling<'a, T: ?Sized, I, F> {
    pub before: DropStream<T>,
    pub after: DropStream<T>,
    pub cx_before: Context<'a>,
    pub cx_after: Context<'a>,
    pub poll: F,
    pub answer: Poll<Option<I>>,
}

/// The polls in `steps` follow one another on one wrapper that starts out as
/// `first`: each finds the wrapper as the poll before it left it.
pub open spec fn chained<'a, T: ?Sized, I, F>(
    first: DropStream<T>,
    steps: Seq<Polling<'a, T, I, F>>,
) -> bool {
    forall|i: int|
        0 <= i < steps.len() ==> (#[trigger] steps[i]).before == state_after(first, steps, i)
}

/// The wrapper as it stands after the first `k` polls of `steps`.
pub open spec fn state_after<'a, T: ?Sized, I, F>(
    first: DropStream<T>,
    steps: Seq<Polling<'a, T, I, F>>,
    k: int,
) -> DropStream<T> {
    if k <= 0 {
        first
    } else {
        steps[k - 1].after
    }
}

proof fn lemma_sender_is_kept<'a, T: ?Sized, I, F>(
    first: DropStream<T>,
    steps: Seq<Polling<'a, T, I, F>>,
    k: int,
)
    requires
        chained(first, steps),
        0 <= k <= steps.len(),
        forall|i: int|
            0 <= i < steps.len() ==> (#[trigger] steps[i]).after.tx == steps[i].before.tx,
    ensures
        state_after(first, steps, k).tx == first.tx,
    decreases k,
{
    if k > 0 {
        lemma_sender_is_kept(first, steps, k - 1);
        assert(steps[k - 1].before == state_after(first, steps, k - 1));
    }
}

/// Forwarding is a pure pass-through. Let a wrapper that starts out as
/// `first` be polled `steps.len()` times in a row, and let `steps` record
/// the answers. The records are what [`DropStream::poll_next`] promises of
/// each poll exactly if two things hold. The wrapper holds the sender it
/// started with before the first poll, between any two, and after the last.
/// And the answers are, in their order, answers of the inner stream alone:
/// poll `i` is answered by the polling function, run once on the inner
/// stream as the `i` polls before it left it, and that run leaves the inner
/// stream as poll `i + 1` finds it. So the wrapper adds no answer, drops
/// none, changes none, and keeps nothing back between two polls.
pub proof fn lemma_polling_is_pass_through<'a, T: ?Sized, I, F>(
    first: DropStream<T>,
    steps: Seq<Polling<'a, T, I, F>>,
)
    where F: FnOnce(&mut Pin<Box<T>>, &mut Context<'_>) -> Poll<Option<I>>
    requires
        chained(first, steps),
    ensures
        (forall|i: int|
            0 <= i < steps.len() ==> {
                let step = #[trigger] steps[i];
                &&& step.after.tx == step.before.tx
                &&& exists|s: &mut Pin<Box<T>>, c: &mut Context<'a>|
                    mut_ref_current(s) == step.before.stream
                    && mut_ref_future(s) == step.after.stream
                    && mut_ref_current(c) == step.cx_before
                    && mut_ref_future(c) == step.cx_after
                    && call_ensures(step.poll, (s, c), step.answer)
            })
        <==> {
            &&& forall|k: int|
                0 <= k <= steps.len() ==> (#[trigger] state_after(first, steps, k)).tx == first.tx
            &&& forall|i: int|
                0 <= i < steps.len() ==> {
                    let step = #[trigger] steps[i];
                    exists|s: &mut Pin<Box<T>>, c: &mut Context<'a>|
                        mut_ref_current(s) == state_after(first, steps, i).stream
                        && mut_ref_future(s) == state_after(first, steps, i + 1).stream
                        && mut_ref_current(c) == step.cx_before
                        && mut_ref_future(c) == step.cx_after
                        && call_ensures(step.poll, (s, c), step.answer)
                }
        },
{
    assert forall|i: int| 0 <= i < steps.len() implies (#[trigger] steps[i]).before
        == state_after(first, steps, i) && steps[i].after == state_after(first, steps, i + 1) by {}
    if forall|i: int|
        0 <= i < steps.len() ==> (#[trigger] steps[i]).after.tx == steps[i].before.tx {
        assert forall|k: int| 0 <= k <= steps.len() implies (#[trigger] state_after(
            first,
            steps,
            k,
        )).tx == first.tx by {
            lemma_sender_is_kept(first, steps, k);
        }
    }
    if forall|k: int|
        0 <= k <= steps.len() ==> (#[trigger] state_after(first, steps, k)).tx == first.tx {
        assert forall|i: int| 0 <= i < steps.len() implies (#[trigger] steps[i]).after.tx
            == steps[i].before.tx by {
            assert(steps[i].before == state_after(first, steps, i));
            assert(steps[i].after == state_after(first, steps, i + 1));
        }
    }
}

/// Teardown sends exactly once, whenever it comes. Let a wrapper that
/// signals `rx`, as a constructor leaves it, be polled any number of times,
/// and let it be torn down after the first `k` of those polls: before the
/// first, between two, or after the last. Then that teardown runs its send
/// on the sender that the wrapper started with, which is the one that
/// belongs to the channel of `rx`; the notice is the answer to that send;
/// the sender is gone afterwards; and a further teardown, whatever send it
/// is given, sends nothing and changes nothing.
pub proof fn lemma_teardown_fires_once<'a, T: ?Sized, I, F, S>(
    first: DropStream<T>,
    rx: Receiver<()>,
    steps: Seq<Polling<'a, T, I, F>>,
    k: int,
    send: S,
    torn: DropStream<T>,
    notice: Notice,
    resend: S,
    again: DropStream<T>,
    second: Notice,
)
    where
        F: FnOnce(&mut Pin<Box<T>>, &mut Context<'_>) -> Poll<Option<I>>,
        S: FnOnce(Sender<()>) -> Result<(), ()>,
    requires
        first.signals(rx),
        chained(first, steps),
        forall|i: int|
            0 <= i < steps.len() ==> {
                let step = #[trigger] steps[i];
                &&& step.after.tx == step.before.tx
                &&& exists|s: &mut Pin<Box<T>>, c: &mut Context<'a>|
                    mut_ref_current(s) == step.before.stream
                    && mut_ref_future(s) == step.after.stream
                    && mut_ref_current(c) == step.cx_before
                    && mut_ref_future(c) == step.cx_after
                    && call_ensures(step.poll, (s, c), step.answer)
            },
        0 <= k <= steps.len(),
        state_after(first, steps, k).fires(send, &torn, notice),
        torn.fires(resend, &again, second),
    ensures
        connected(first.tx->0, rx),
        exists|sent: Result<(), ()>|
            #[trigger] call_ensures(send, (first.tx->0,), sent) && notice == Notice::of_send(
                sent,
            ),
        notice is Delivered || notice is ReceiverGone,
        torn.stream == state_after(first, steps, k).stream,
        !torn.armed(),
        second is AlreadyFired,
        again == torn,
{
    lemma_sender_is_kept(first, steps, k);
}

/// Without a sender teardown is silent: nothing is sent, and the wrapper
/// is left exactly as it was.
pub proof fn lemma_fire_without_sender_is_silent<T: ?Sized, S>(
    wrapper: DropStream<T>,
    send: S,
    after: DropStream<T>,
    notice: Notice,
)
    where S: FnOnce(Sender<()>) -> Result<(), ()>
    requires
        !wrapper.armed(),
        wrapper.fires(send, &after, notice),
    ensures
        notice is AlreadyFired,
        after == wrapper,
{
}

/// A second teardown is silent: whatever state a wrapper was in, once it has
/// fired, firing it again sends nothing and changes nothing.
pub proof fn lemma_second_fire_is_silent<T: ?Sized, S>(
    wrapper: DropStream<T>,
    send: S,
    torn: DropStream<T>,
    notice: Notice,
    resend: S,
    again: DropStream<T>,
    second: Notice,
)
    where S: FnOnce(Sender<()>) -> Result<(), ()>
    requires
        wrapper.fires(send, &torn, notice),
        torn.fires(resend, &again, second),
    ensures
        second is AlreadyFired,
        again == torn,
{
    lemma_fire_without_sender_is_silent(torn, resend, again, second);
}

/// A receiver that is gone is no failure. Whatever comes of the send,
/// teardown ends in the same state, with the stream untouched and the
/// sender gone: the answer to the send decides the notice and nothing else.
pub proof fn lemma_teardown_ignores_the_answer<T: ?Sized, S>(
    wrapper: DropStream<T>,
    send: S,
    one: DropStream<T>,
    notice: Notice,
    other: DropStream<T>,
    other_notice: Notice,
)
    where S: FnOnce(Sender<()>) -> Result<(), ()>
    requires
        wrapper.fires(send, &one, notice),
        wrapper.fires(send, &other, other_notice),
    ensures
        one == other,
        one.stream == wrapper.stream,
        !one.armed(),
{
}

} // verus!
