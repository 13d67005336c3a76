//! Events crossing from background producers to the single UI-thread
//! consumer, and the FIFO buffer they travel through.

use vstd::prelude::*;

verus! {

/// A snapshot of the playback engine's status, as reported by the
/// background session worker.
#[derive(Clone, Copy, PartialEq, Eq, Structural, Debug)]
pub enum PlayerState {
    Playing,
    Paused,
    Stopped,
    FinishedTrack,
}

/// An occurrence reported by the queue component. The run loop forwards it
/// unchanged, so only an identifying payload is carried here.
#[derive(Clone, Copy, PartialEq, Eq, Structural, Debug)]
pub struct QueueOccurrence {
    pub id: u64,
}

/// A cross-thread message describing a domain occurrence awaiting
/// UI-thread handling. Immutable once constructed.
#[derive(PartialEq, Debug)]
pub enum Event {
    /// The playback status changed.
    Player(PlayerState),
    /// The queue component reported an occurrence of its own.
    Queue(QueueOccurrence),
    /// The background playback-session worker terminated.
    SessionDied,
    /// A line of text arrived over the inter-process control input.
    IpcInput(String),
}

/// The sole channel between background producers and the UI consumer:
/// an unbounded FIFO buffer of events. This is the consumer-side model;
/// the cross-thread transport that fills it is pure plumbing and carries
/// no application semantics.
///
/// The view of a manager is the sequence of currently buffered events,
/// oldest first.
pub struct EventManager {
    buffer: Vec<Event>,
}

impl View for EventManager {
    type V = Seq<Event>;

    closed spec fn view(&self) -> Seq<Event> {
        self.buffer@
    }
}

impl EventManager {
    /// A manager with nothing buffered.
    pub fn new() -> (r: EventManager)
        ensures
            r@ == Seq::<Event>::empty(),
    {
        EventManager { buffer: Vec::new() }
    }

    /// Enqueue one event behind everything already buffered. Never blocks
    /// and never fails: a producer is never stalled by the consumer.
    pub fn send(&mut self, event: Event)
        ensures
            final(self)@ == old(self)@.push(event),
    {
        self.buffer.push(event);
    }

    /// Take a snapshot of everything buffered at call time, in arrival
    /// order, leaving the buffer empty. Each event is yielded exactly once
    /// across the life of the manager.
    pub fn drain(&mut self) -> (r: Vec<Event>)
        ensures
            r@ == old(self)@,
            final(self)@ == Seq::<Event>::empty(),
    {
        let mut out: Vec<Event> = Vec::new();
        core::mem::swap(&mut out, &mut self.buffer);
        out
    }
}

} // verus!
