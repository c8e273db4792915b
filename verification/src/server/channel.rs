//! The delivery queue of a peer: an unbounded `tokio` channel of responses.
//!
//! Verus does not read `tokio`; what this file states of it is taken from
//! its source and believed, not proved. Whether a queue takes a response
//! depends on its receiving end, which another task holds, so nothing is
//! stated of what `send` returns: the callers say what they do with either
//! outcome.
//!
//! To Verus a sending end is a value. The registry keeps each sending end in
//! one place, never copies it, and hands it to [`send`] by `&mut`; so each
//! end has one history, and [`handed`] names it.

use vstd::prelude::*;
use tokio::sync::mpsc::{UnboundedReceiver, UnboundedSender};
use crate::common::message::{Response, ResponseView};

verus! {

/// `tokio::sync::mpsc::UnboundedSender`, the sending end of a queue. Its
/// inside is hidden.
#[verifier::external_type_specification]
#[verifier::external_body]
#[verifier::reject_recursive_types(T)]
pub struct ExUnboundedSender<T>(UnboundedSender<T>);

/// `tokio::sync::mpsc::UnboundedReceiver`, the receiving end of a queue. Its
/// inside is hidden.
#[verifier::external_type_specification]
#[verifier::external_body]
#[verifier::reject_recursive_types(T)]
pub struct ExUnboundedReceiver<T>(UnboundedReceiver<T>);

/// The end of a delivery queue that the registry keeps.
pub type Sender = UnboundedSender<Response>;

/// The end of a delivery queue that the session keeps.
pub type Receiver = UnboundedReceiver<Response>;

/// One response that was handed to a delivery queue, and whether the queue
/// took it. A queue whose receiving end is closed or gone takes nothing.
pub struct Handed {
    pub response: ResponseView,
    pub taken: bool,
}

/// The responses that were handed to [`send`] through this sending end
/// since its queue was opened, oldest first, each with what `send` said of
/// it.
pub uninterp spec fn handed(queue: Sender) -> Seq<Handed>;

/// Whether `close` was called on this receiving end: the mark that the
/// receiving end keeps of it.
pub uninterp spec fn closed(queue: Receiver) -> bool;

/// `tokio::sync::mpsc::unbounded_channel`: a new queue, as its two ends.
/// Nothing was handed to it yet, and it is not closed.
#[verifier::external_body]
pub(crate) fn open() -> (ends: (Sender, Receiver))
    ensures
        handed(ends.0) == Seq::<Handed>::empty(),
        !closed(ends.1),
{
    tokio::sync::mpsc::unbounded_channel()
}

/// `UnboundedSender::send`: puts the response on the queue unless the
/// receiving end is closed or gone, and never waits. The result tells
/// whether the queue took the response; nothing is stated of which it is.
/// Either way this response, and no other, was handed to the queue through
/// this end.
#[verifier::external_body]
pub(crate) fn send(queue: &mut Sender, response: Response) -> (taken: bool)
    ensures
        handed(*final(queue)) == handed(*old(queue)).push(Handed { response: response@, taken }),
{
    queue.send(response).is_ok()
}

/// `UnboundedReceiver::close`: closes the receiving end, so that the queue
/// takes nothing more. The end keeps the mark of it.
#[verifier::external_body]
pub(crate) fn close(queue: &mut Receiver)
    ensures
        closed(*final(queue)),
{
    queue.close()
}

} // verus!
