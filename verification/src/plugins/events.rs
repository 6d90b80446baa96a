//! The two queues of a frame: finished command buffers on their way to
//! submission, and resize records on their way to the prepare stage. Both
//! keep their events in a `bevy_ecs` event collection and hand them out in
//! the order of arrival.

use vstd::prelude::*;
use crate::application::ResizeEvent;
use crate::plugins::rendering::CommandBufferFinishedEvent;
use bevy_ecs::event::Events;

verus! {

/// Finished command buffers can be kept in a `bevy_ecs` event collection.
impl bevy_ecs::event::Event for CommandBufferFinishedEvent {

}

/// Resize records can be kept in a `bevy_ecs` event collection.
impl bevy_ecs::event::Event for ResizeEvent {

}

/// `bevy_ecs::event::Events` of finished command buffers.
#[verifier::external_body]
pub struct FinishedBuffers {
    events: Events<CommandBufferFinishedEvent>,
}

/// The events that `buffers` holds, oldest first.
pub uninterp spec fn held_buffers(buffers: FinishedBuffers) -> Seq<CommandBufferFinishedEvent>;

/// The number of events that were ever sent to `buffers`.
pub uninterp spec fn buffers_sent(buffers: FinishedBuffers) -> nat;

/// `Events::default`: an empty collection to which nothing was sent yet.
#[verifier::external_body]
fn finished_buffers_new() -> (buffers: FinishedBuffers)
    ensures
        held_buffers(buffers) == Seq::<CommandBufferFinishedEvent>::empty(),
        buffers_sent(buffers) == 0,
{
    FinishedBuffers { events: Events::default() }
}

/// `Events::send`: the event is appended behind those already held, and the
/// count of events sent grows by one. The count is a `usize` that the call
/// increments, so it must have room.
#[verifier::external_body]
fn finished_buffers_send(buffers: &mut FinishedBuffers, event: CommandBufferFinishedEvent)
    requires
        buffers_sent(*old(buffers)) < usize::MAX,
    ensures
        held_buffers(*final(buffers)) == held_buffers(*old(buffers)).push(event),
        buffers_sent(*final(buffers)) == buffers_sent(*old(buffers)) + 1,
{
    buffers.events.send(event)
}

/// `Events::drain`: every event held leaves the collection, oldest first. The
/// count of events sent stays.
#[verifier::external_body]
fn finished_buffers_drain(buffers: &mut FinishedBuffers) -> (drained: Vec<
    CommandBufferFinishedEvent,
>)
    ensures
        drained@ == held_buffers(*old(buffers)),
        held_buffers(*final(buffers)) == Seq::<CommandBufferFinishedEvent>::empty(),
        buffers_sent(*final(buffers)) == buffers_sent(*old(buffers)),
{
    buffers.events.drain().collect()
}

/// What a queue of events holds.
pub struct Queued<E> {
    /// The events that wait, in the order in which they were sent.
    pub pending: Seq<E>,
    /// The number of events ever sent.
    pub sent: nat,
}

impl<E> Queued<E> {
    /// A queue to which nothing was sent yet.
    pub open spec fn fresh() -> Queued<E> {
        Queued { pending: Seq::empty(), sent: 0 }
    }

    /// Whether the queue can count one more event.
    pub open spec fn has_room(self) -> bool {
        self.sent < usize::MAX
    }

    /// The queue once `event` was sent: it stands behind those that wait
    /// already. A queue without room stays as it is.
    pub open spec fn accept(self, event: E) -> Queued<E> {
        if self.has_room() {
            Queued { pending: self.pending.push(event), sent: self.sent + 1 }
        } else {
            self
        }
    }

    /// The queue once it was drained.
    pub open spec fn cleared(self) -> Queued<E> {
        Queued { pending: Seq::empty(), sent: self.sent }
    }
}

/// Events leave in the order in which they were sent, whoever sent them:
/// after `first`, `second` and `third` were sent in this order, they wait in
/// this order behind what waited before.
pub proof fn lemma_events_leave_in_arrival_order<E>(
    queue: Queued<E>,
    first: E,
    second: E,
    third: E,
)
    requires
        queue.sent + 3 <= usize::MAX,
    ensures
        queue.accept(first).accept(second).accept(third).pending == queue.pending + seq![
            first,
            second,
            third,
        ],
{
    assert(queue.accept(first).accept(second).accept(third).pending =~= queue.pending + seq![
        first,
        second,
        third,
    ]);
}

/// A drained queue holds nothing: draining it again, with nothing sent in
/// between, yields nothing and changes nothing.
pub proof fn lemma_drained_queue_stays_empty<E>(queue: Queued<E>)
    ensures
        queue.cleared().pending == Seq::<E>::empty(),
        queue.cleared().cleared() == queue.cleared(),
{
}

/// Why an event was not taken.
#[derive(Clone, Copy, PartialEq, Eq, Structural, Debug)]
pub enum QueueError {
    /// As many events were sent as the queue can count.
    Exhausted,
}

/// The queue between the systems that record command buffers and the one
/// point that submits them. Buffers leave in the order in which they
/// arrived, whichever system sent them.
pub struct CommandAggregator {
    buffers: FinishedBuffers,
    sent: usize,
}

impl View for CommandAggregator {
    type V = Queued<CommandBufferFinishedEvent>;

    closed spec fn view(&self) -> Queued<CommandBufferFinishedEvent> {
        Queued { pending: held_buffers(self.buffers), sent: buffers_sent(self.buffers) }
    }
}

impl CommandAggregator {
    /// The queue's own count of the buffers sent agrees with that of the
    /// collection it keeps them in.
    pub closed spec fn wf(&self) -> bool {
        self.sent == buffers_sent(self.buffers)
    }

    /// An empty queue.
    pub fn new() -> (aggregator: Self)
        ensures
            aggregator.wf(),
            aggregator@ == Queued::<CommandBufferFinishedEvent>::fresh(),
    {
        CommandAggregator { buffers: finished_buffers_new(), sent: 0 }
    }

    /// Takes a finished buffer behind those that wait already. Fails, and
    /// changes nothing, only when the queue has no room to count it.
    pub fn send(&mut self, event: CommandBufferFinishedEvent) -> (taken: Result<(), QueueError>)
        requires
            old(self).wf(),
        ensures
            final(self).wf(),
            final(self)@ == old(self)@.accept(event),
            taken == (if old(self)@.has_room() {
                Ok::<(), QueueError>(())
            } else {
                Err::<(), QueueError>(QueueError::Exhausted)
            }),
    {
        if self.sent == usize::MAX {
            return Err(QueueError::Exhausted);
        }
        finished_buffers_send(&mut self.buffers, event);
        self.sent = self.sent + 1;
        Ok(())
    }

    /// Takes every waiting buffer out, in the order in which they were sent,
    /// and leaves the queue empty.
    pub fn drain(&mut self) -> (drained: Vec<CommandBufferFinishedEvent>)
        requires
            old(self).wf(),
        ensures
            final(self).wf(),
            drained@ == old(self)@.pending,
            final(self)@ == old(self)@.cleared(),
    {
        finished_buffers_drain(&mut self.buffers)
    }
}

/// `bevy_ecs::event::Events` of resize records.
#[verifier::external_body]
pub struct ResizeRecords {
    events: Events<ResizeEvent>,
}

/// The events that `records` holds, oldest first.
pub uninterp spec fn held_resizes(records: ResizeRecords) -> Seq<ResizeEvent>;

/// The number of events that were ever sent to `records`.
pub uninterp spec fn resizes_sent(records: ResizeRecords) -> nat;

/// `Events::default`: an empty collection to which nothing was sent yet.
#[verifier::external_body]
fn resize_records_new() -> (records: ResizeRecords)
    ensures
        held_resizes(records) == Seq::<ResizeEvent>::empty(),
        resizes_sent(records) == 0,
{
    ResizeRecords { events: Events::default() }
}

/// `Events::send`: the event is appended behind those already held, and the
/// count of events sent grows by one. The count is a `usize` that the call
/// increments, so it must have room.
#[verifier::external_body]
fn resize_records_send(records: &mut ResizeRecords, event: ResizeEvent)
    requires
        resizes_sent(*old(records)) < usize::MAX,
    ensures
        held_resizes(*final(records)) == held_resizes(*old(records)).push(event),
        resizes_sent(*final(records)) == resizes_sent(*old(records)) + 1,
{
    records.events.send(event)
}

/// `Events::drain`: every event held leaves the collection, oldest first. The
/// count of events sent stays.
#[verifier::external_body]
fn resize_records_drain(records: &mut ResizeRecords) -> (drained: Vec<ResizeEvent>)
    ensures
        drained@ == held_resizes(*old(records)),
        held_resizes(*final(records)) == Seq::<ResizeEvent>::empty(),
        resizes_sent(*final(records)) == resizes_sent(*old(records)),
{
    records.events.drain().collect()
}

/// The resize records that arrived since the last frame. The platform sends
/// them at any time; the next frame's prepare stage takes them all.
pub struct ResizeInbox {
    records: ResizeRecords,
    sent: usize,
}

impl View for ResizeInbox {
    type V = Queued<ResizeEvent>;

    closed spec fn view(&self) -> Queued<ResizeEvent> {
        Queued { pending: held_resizes(self.records), sent: resizes_sent(self.records) }
    }
}

impl ResizeInbox {
    /// The inbox's own count of the records sent agrees with that of the
    /// collection it keeps them in.
    pub closed spec fn wf(&self) -> bool {
        self.sent == resizes_sent(self.records)
    }

    /// An empty inbox.
    pub fn new() -> (inbox: Self)
        ensures
            inbox.wf(),
            inbox@ == Queued::<ResizeEvent>::fresh(),
    {
        ResizeInbox { records: resize_records_new(), sent: 0 }
    }

    /// Takes a resize record behind those that wait already. Fails, and
    /// changes nothing, only when the inbox has no room to count it.
    pub fn send(&mut self, event: ResizeEvent) -> (taken: Result<(), QueueError>)
        requires
            old(self).wf(),
        ensures
            final(self).wf(),
            final(self)@ == old(self)@.accept(event),
            taken == (if old(self)@.has_room() {
                Ok::<(), QueueError>(())
            } else {
                Err::<(), QueueError>(QueueError::Exhausted)
            }),
    {
        if self.sent == usize::MAX {
            return Err(QueueError::Exhausted);
        }
        resize_records_send(&mut self.records, event);
        self.sent = self.sent + 1;
        Ok(())
    }

    /// Takes every waiting record out, in the order of arrival, and leaves
    /// the inbox empty.
    pub fn drain(&mut self) -> (drained: Vec<ResizeEvent>)
        requires
            old(self).wf(),
        ensures
            final(self).wf(),
            drained@ == old(self)@.pending,
            final(self)@ == old(self)@.cleared(),
    {
        resize_records_drain(&mut self.records)
    }
}

} // verus!
