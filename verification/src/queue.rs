//! Trusted boundary to crossbeam's `SegQueue`, the unbounded FIFO queue
//! that carries raw input events into the input domain and finished
//! render frames out to the render processor.
//!
//! The queue is opaque to verification; each wrapper states, over the
//! uninterpreted contents sequences below, what crossbeam's source shows:
//! `push_mut` appends at the tail, `pop_mut` removes the head or returns
//! `None` on an empty queue.

use vstd::prelude::*;
use crate::input_event::InputEvent;
use crate::render_frame::RenderFrame;

verus! {

#[verifier::external_type_specification]
#[verifier::external_body]
#[verifier::reject_recursive_types(T)]
pub struct ExSegQueue<T>(crossbeam::queue::SegQueue<T>);

/// The events held by an input event queue, head first.
pub uninterp spec fn input_queue_view(q: crossbeam::queue::SegQueue<InputEvent>) -> Seq<
    InputEvent,
>;

/// The frames held by a render hand-off queue, head first.
pub uninterp spec fn render_queue_view(q: crossbeam::queue::SegQueue<RenderFrame>) -> Seq<
    RenderFrame,
>;

/// Relies on crossbeam's `SegQueue::new`: creates an empty queue.
#[verifier::external_body]
pub(crate) fn new_input_queue() -> (q: crossbeam::queue::SegQueue<InputEvent>)
    ensures
        input_queue_view(q) == Seq::<InputEvent>::empty(),
{
    crossbeam::queue::SegQueue::new()
}

/// Relies on crossbeam's `SegQueue::push_mut`: appends the element at
/// the tail of the queue.
#[verifier::external_body]
pub(crate) fn push_input_event(q: &mut crossbeam::queue::SegQueue<InputEvent>, e: InputEvent)
    ensures
        input_queue_view(*final(q)) == input_queue_view(*old(q)).push(e),
{
    q.push_mut(e)
}

/// Relies on crossbeam's `SegQueue::pop_mut`: removes and returns the
/// head element, or returns `None` when the queue is empty.
#[verifier::external_body]
pub(crate) fn pop_input_event(q: &mut crossbeam::queue::SegQueue<InputEvent>) -> (r: Option<
    InputEvent,
>)
    ensures
        match r {
            Option::Some(e) => input_queue_view(*old(q)).len() > 0 && e == input_queue_view(
                *old(q),
            )[0] && input_queue_view(*final(q)) == input_queue_view(*old(q)).drop_first(),
            Option::None => input_queue_view(*old(q)).len() == 0 && input_queue_view(*final(q))
                == input_queue_view(*old(q)),
        },
{
    q.pop_mut()
}

/// Relies on crossbeam's `SegQueue::new`: creates an empty queue.
#[verifier::external_body]
pub(crate) fn new_render_queue() -> (q: crossbeam::queue::SegQueue<RenderFrame>)
    ensures
        render_queue_view(q) == Seq::<RenderFrame>::empty(),
{
    crossbeam::queue::SegQueue::new()
}

/// Relies on crossbeam's `SegQueue::push_mut`: appends the frame at the
/// tail of the queue.
#[verifier::external_body]
pub(crate) fn push_render_frame(q: &mut crossbeam::queue::SegQueue<RenderFrame>, f: RenderFrame)
    ensures
        render_queue_view(*final(q)) == render_queue_view(*old(q)).push(f),
{
    q.push_mut(f)
}

/// Relies on crossbeam's `SegQueue::pop_mut`: removes and returns the
/// head frame, or returns `None` when the queue is empty.
#[verifier::external_body]
pub(crate) fn pop_render_frame(q: &mut crossbeam::queue::SegQueue<RenderFrame>) -> (r: Option<
    RenderFrame,
>)
    ensures
        match r {
            Option::Some(f) => render_queue_view(*old(q)).len() > 0 && f == render_queue_view(
                *old(q),
            )[0] && render_queue_view(*final(q)) == render_queue_view(*old(q)).drop_first(),
            Option::None => render_queue_view(*old(q)).len() == 0 && render_queue_view(*final(q))
                == render_queue_view(*old(q)),
        },
{
    q.pop_mut()
}

} // verus!
