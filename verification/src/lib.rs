//! A stream wrapper that fires a one-shot signal when it is torn down.
//!
//! [`DropStream`] owns a pinned, boxed stream together with the sending half
//! of a one-shot channel. Polling is handed on to the inner stream untouched;
//! at teardown the sender is taken out and sent on, at most once, whatever
//! the reason for the teardown.
//!
//! The wrapper never looks inside what it holds, and what it does with it is
//! handed in by its caller as a function: [`DropStream::poll_next`] takes
//! the poll of the inner stream, [`DropStream::new_closure`] the scheduling
//! of the follow-up, [`DropStream::fire`] the send on the channel. The
//! contracts say that the function is run, on what, and that its answer is
//! handed on; what the function itself does is its own business. The owner
//! of a wrapper ties `fire` to the end of the wrapper's life, in a
//! destructor of its own.
//!
//! The one-shot channel comes from the `futures` crate; what is assumed of
//! it is collected in [`channel`], what is assumed of the standard library's
//! pinning and task types in [`task`].

pub mod channel;
pub mod laws;
pub mod stream;
pub mod task;

pub use stream::{DropStream, Notice};
