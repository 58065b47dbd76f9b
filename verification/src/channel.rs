//! The hand-off queue between the indexer and the dispatcher: bounded, in
//! order, and closed once by the side that sends.

use std::collections::VecDeque;
use vstd::prelude::*;
use crate::event::Event;

verus! {

/// How many events may wait in the channel.
pub const CHANNEL_CAPACITY: usize = 128;

/// What the channel holds.
pub ghost struct ChannelView {
    /// The events that wait, oldest first.
    pub pending: Seq<Event>,
    /// Whether the sending side has closed the channel.
    pub closed: bool,
}

impl ChannelView {
    /// Whether no more than `CHANNEL_CAPACITY` events wait.
    pub open spec fn wf(self) -> bool {
        self.pending.len() <= CHANNEL_CAPACITY
    }

    /// Whether the channel is at capacity.
    pub open spec fn is_full(self) -> bool {
        self.pending.len() >= CHANNEL_CAPACITY
    }

    /// The channel after an attempt to send `event`: the event waits behind
    /// all others, or, where the channel is full, nothing has changed.
    pub open spec fn send(self, event: Event) -> ChannelView {
        if self.is_full() {
            self
        } else {
            ChannelView { pending: self.pending.push(event), closed: self.closed }
        }
    }

    /// The channel after an attempt to receive: the oldest event has left.
    pub open spec fn receive(self) -> ChannelView {
        if self.pending.len() > 0 {
            ChannelView { pending: self.pending.drop_first(), closed: self.closed }
        } else {
            self
        }
    }

    /// The channel after the sending side has closed it.
    pub open spec fn close(self) -> ChannelView {
        ChannelView { pending: self.pending, closed: true }
    }
}

/// What an attempt to receive finds.
#[derive(Debug, Clone, PartialEq, Eq)]
pub enum Received {
    /// The oldest event that waited.
    Event(Event),
    /// Nothing waits and the channel is open: the receiver suspends.
    Empty,
    /// Nothing waits and the channel is closed: no event will come.
    EndOfStream,
}

/// The queue of events between the indexer and the dispatcher.
pub struct EventChannel {
    pending: VecDeque<Event>,
    closed: bool,
}

impl View for EventChannel {
    type V = ChannelView;

    closed spec fn view(&self) -> ChannelView {
        ChannelView { pending: self.pending@, closed: self.closed }
    }
}

impl EventChannel {
    /// An open channel in which nothing waits.
    pub fn new() -> (channel: Self)
        ensures
            channel@.pending.len() == 0,
            !channel@.closed,
            channel@.wf(),
    {
        EventChannel { pending: VecDeque::new(), closed: false }
    }

    /// How many events wait.
    pub fn len(&self) -> (n: usize)
        ensures
            n == self@.pending.len(),
    {
        self.pending.len()
    }

    /// Whether the channel is at capacity.
    pub fn is_full(&self) -> (full: bool)
        ensures
            full == self@.is_full(),
    {
        self.pending.len() >= CHANNEL_CAPACITY
    }

    /// Whether the sending side has closed the channel.
    pub fn is_closed(&self) -> (closed: bool)
        ensures
            closed == self@.closed,
    {
        self.closed
    }

    /// Puts `event` behind the events that wait. Where the channel is at
    /// capacity the event comes back and nothing has changed: the sender
    /// suspends and sends again. No event is dropped.
    pub fn try_send(&mut self, event: Event) -> (r: Result<(), Event>)
        requires
            !old(self)@.closed,
        ensures
            final(self)@ == old(self)@.send(event),
            old(self)@.wf() ==> final(self)@.wf(),
            match r {
                Ok(()) => !old(self)@.is_full(),
                Err(back) => old(self)@.is_full() && back == event,
            },
    {
        if self.pending.len() >= CHANNEL_CAPACITY {
            Err(event)
        } else {
            self.pending.push_back(event);
            Ok(())
        }
    }

    /// Closes the channel: what waits can still be received, and after it
    /// the end of the stream.
    pub fn close(&mut self)
        ensures
            final(self)@ == old(self)@.close(),
    {
        self.closed = true;
    }

    /// Takes the oldest event that waits. Where nothing waits, says whether
    /// more may come.
    pub fn try_receive(&mut self) -> (r: Received)
        ensures
            final(self)@ == old(self)@.receive(),
            match r {
                Received::Event(event) => old(self)@.pending.len() > 0 && event == old(self)@.pending[0],
                Received::Empty => old(self)@.pending.len() == 0 && !old(self)@.closed,
                Received::EndOfStream => old(self)@.pending.len() == 0 && old(self)@.closed,
            },
    {
        match self.pending.pop_front() {
            Some(event) => {
                assert(self.pending@ =~= old(self).pending@.drop_first());
                Received::Event(event)
            },
            None => if self.closed {
                Received::EndOfStream
            } else {
                Received::Empty
            },
        }
    }
}

/// A send into a channel at capacity changes nothing, so the event that
/// comes back is not lost; once one event has been received, the same send
/// is accepted, behind all the events that still wait and in their order.
pub proof fn lemma_full_channel_gives_way(channel: ChannelView, event: Event)
    requires
        channel.wf(),
        channel.is_full(),
    ensures
        channel.send(event) == channel,
        !channel.receive().is_full(),
        channel.receive().send(event).pending == channel.pending.drop_first().push(event),
        channel.receive().send(event).wf(),
{
}

/// Events leave the channel in the order in which they came: after a send
/// that was accepted, what waits is what waited before, then the new event.
pub proof fn lemma_channel_keeps_order(channel: ChannelView, event: Event, i: int)
    requires
        channel.wf(),
        !channel.is_full(),
        0 <= i < channel.pending.len(),
    ensures
        channel.send(event).pending[i] == channel.pending[i],
        channel.send(event).pending.last() == event,
        channel.send(event).pending.len() == channel.pending.len() + 1,
{
}

/// A closed channel reports the end of the stream only when every event
/// that waited has been received.
pub proof fn lemma_closed_channel_drains(channel: ChannelView)
    requires
        channel.closed,
        channel.pending.len() > 0,
    ensures
        channel.receive().closed,
        channel.receive().pending.len() == channel.pending.len() - 1,
{
}

} // verus!
