//! The FIFO queue that holds the inputs waiting for one tick.
//!
//! The queue itself is `queues::Queue`. Nothing in this module is proved: each
//! function below states what the queue's implementation does, and the rest of
//! the crate is verified against these statements.

use crate::shared_data::Input;
use queues::IsQueue;
use queues::Queue;
use vstd::prelude::*;

verus! {

/// `queues::Queue`, taken as it is: nothing inside it is visible to proofs.
#[verifier::external_type_specification]
#[verifier::external_body]
#[verifier::reject_recursive_types(T)]
pub struct ExQueue<T: Clone>(queues::Queue<T>);

/// The inputs held by a queue, oldest first.
pub uninterp spec fn queued(q: Queue<Input>) -> Seq<Input>;

/// `Queue::new`: a queue that holds nothing.
#[verifier::external_body]
pub(crate) fn queue_new() -> (q: Queue<Input>)
    ensures
        queued(q) == Seq::<Input>::empty(),
{
    Queue::new()
}

/// `Queue::add`: the input is appended behind everything already queued. The
/// call cannot fail on this kind of queue and displaces nothing.
#[verifier::external_body]
pub(crate) fn queue_add(q: &mut Queue<Input>, input: Input)
    ensures
        queued(*final(q)) == queued(*old(q)).push(input),
{
    let _ = q.add(input);
}

/// `Queue::remove`: takes the oldest input out and returns it; on an empty
/// queue nothing changes and nothing is returned.
#[verifier::external_body]
pub(crate) fn queue_remove(q: &mut Queue<Input>) -> (head: Option<Input>)
    ensures
        match head {
            Some(input) => queued(*old(q)).len() > 0 && input == queued(*old(q)).first()
                && queued(*final(q)) == queued(*old(q)).drop_first(),
            None => queued(*old(q)).len() == 0 && queued(*final(q)) == queued(*old(q)),
        },
{
    q.remove().ok()
}

} // verus!
