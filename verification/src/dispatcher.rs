//! The decisions of the dispatcher: which step comes next, and what each
//! outcome of a step changes.

use vstd::prelude::*;
use crate::channel::{ChannelView, EventChannel, Received};
use crate::event::{Event, EventView};
use crate::key::{key_text, partition_key};
use crate::payload::{payload, payload_text};
use crate::text::as_bytes;

verus! {

/// How long the dispatcher waits before it offers a refused message again,
/// in milliseconds.
pub const RETRY_DELAY_MILLIS: u64 = 1000;

/// How long one flush may take, in milliseconds.
pub const FLUSH_TIMEOUT_MILLIS: u64 = 60000;

/// Where the dispatcher stands.
#[derive(Debug, Clone, Copy, PartialEq, Eq, Structural)]
pub enum Phase {
    /// Events are received and published.
    Running,
    /// The channel is closed; what still waits in it is published.
    Draining,
    /// Every event was handed to the producer; the dispatcher waits for the
    /// acknowledgements.
    Flushing,
    /// The dispatcher has stopped.
    Terminated,
}

/// The step that the dispatcher asks for.
#[derive(Debug, Clone, Copy, PartialEq, Eq, Structural)]
pub enum Action {
    /// Receive the next event from the channel.
    Receive,
    /// Offer the message at hand to the producer.
    Enqueue,
    /// Poll the producer and wait before the message is offered again.
    Backoff { millis: u64 },
    /// Flush the producer.
    Flush { timeout_millis: u64 },
    /// Nothing is left to do.
    Stop,
}

/// What an outcome did.
#[derive(Debug, Clone, Copy, PartialEq, Eq, Structural)]
pub enum Report {
    /// The outcome answered no step that was asked for, and changed nothing.
    Ignored,
    /// The message was handed to the producer.
    Sent,
    /// The producer refused the message; it will be offered again.
    Retrying,
    /// The flush is over and every message was acknowledged.
    Flushed,
    /// A flush timed out; one more follows.
    FlushAgain,
    /// The second flush timed out too; the dispatcher stops all the same.
    FlushFailed,
}

/// One message for the broker.
#[derive(Debug, Clone, PartialEq, Eq)]
pub struct Message {
    pub key: String,
    pub payload: Vec<u8>,
}

/// A `Message` as plain values.
pub ghost struct MessageView {
    pub key: Seq<char>,
    pub payload: Seq<u8>,
}

impl View for Message {
    type V = MessageView;

    open spec fn view(&self) -> MessageView {
        MessageView { key: self.key@, payload: self.payload@ }
    }
}

/// The message of an event: its partition key and its payload.
pub open spec fn message_of(event: EventView) -> MessageView {
    MessageView { key: key_text(event), payload: as_bytes(payload_text(event)) }
}

/// The messages of a run of events, in their order.
pub open spec fn messages_of(events: Seq<Event>) -> Seq<MessageView> {
    Seq::new(events.len(), |i: int| message_of(events[i]@))
}

impl Message {
    /// The message of `event`.
    pub fn of(event: &Event) -> (message: Message)
        ensures
            message@ == message_of(event@),
    {
        Message { key: partition_key(event), payload: payload(event) }
    }
}

/// The state of the dispatcher as plain values.
pub ghost struct DispatcherView {
    pub phase: Phase,
    /// The message that was received and not yet handed to the producer.
    pub pending: Option<MessageView>,
    /// Whether the producer refused the message and the wait is not over.
    pub waiting: bool,
    /// Whether one flush has timed out.
    pub timed_out: bool,
    /// Whether the second flush timed out too.
    pub flush_failed: bool,
    /// The messages of the events that were received, in their order.
    pub taken: Seq<MessageView>,
    /// The messages that were handed to the producer, in their order.
    pub handed: Seq<MessageView>,
    /// How many times the producer refused a message.
    pub retries: nat,
}

impl DispatcherView {
    /// What holds of every state that the dispatcher can reach.
    pub open spec fn wf(self) -> bool {
        &&& self.waiting ==> self.pending is Some
        &&& self.pending is Some ==> self.phase == Phase::Running || self.phase == Phase::Draining
        &&& self.taken == match self.pending {
            Some(message) => self.handed.push(message),
            None => self.handed,
        }
        &&& self.timed_out ==> self.phase == Phase::Flushing || self.phase == Phase::Terminated
        &&& self.flush_failed ==> self.phase == Phase::Terminated && self.timed_out
    }

    /// The step that comes next.
    pub open spec fn action(self) -> Action {
        match self.phase {
            Phase::Running | Phase::Draining => if self.pending is None {
                Action::Receive
            } else if self.waiting {
                Action::Backoff { millis: RETRY_DELAY_MILLIS }
            } else {
                Action::Enqueue
            },
            Phase::Flushing => Action::Flush { timeout_millis: FLUSH_TIMEOUT_MILLIS },
            Phase::Terminated => Action::Stop,
        }
    }

    /// An event was received and `message` made of it.
    pub open spec fn received(self, message: MessageView) -> DispatcherView {
        if self.action() == Action::Receive {
            DispatcherView { pending: Some(message), taken: self.taken.push(message), ..self }
        } else {
            self
        }
    }

    /// The sending side closed the channel.
    pub open spec fn closed(self) -> DispatcherView {
        if self.phase == Phase::Running {
            DispatcherView { phase: Phase::Draining, ..self }
        } else {
            self
        }
    }

    /// The channel reported the end of the stream.
    pub open spec fn end_of_stream(self) -> DispatcherView {
        if self.action() == Action::Receive {
            DispatcherView { phase: Phase::Flushing, ..self }
        } else {
            self
        }
    }

    /// The producer took the message at hand, or refused it.
    pub open spec fn enqueue_result(self, accepted: bool) -> DispatcherView {
        if self.action() != Action::Enqueue {
            self
        } else if accepted {
            DispatcherView { pending: None, handed: self.handed.push(self.pending.unwrap()), ..self }
        } else {
            DispatcherView { waiting: true, retries: self.retries + 1, ..self }
        }
    }

    /// The wait before the next offer is over.
    pub open spec fn waited(self) -> DispatcherView {
        DispatcherView { waiting: false, ..self }
    }

    /// A flush ended, in time or not.
    pub open spec fn flush_result(self, flushed: bool) -> DispatcherView {
        if self.phase != Phase::Flushing {
            self
        } else if flushed {
            DispatcherView { phase: Phase::Terminated, ..self }
        } else if !self.timed_out {
            DispatcherView { timed_out: true, ..self }
        } else {
            DispatcherView { phase: Phase::Terminated, flush_failed: true, ..self }
        }
    }

    /// The report on an outcome of an offer.
    pub open spec fn enqueue_report(self, accepted: bool) -> Report {
        if self.action() != Action::Enqueue {
            Report::Ignored
        } else if accepted {
            Report::Sent
        } else {
            Report::Retrying
        }
    }

    /// The report on an outcome of a flush.
    pub open spec fn flush_report(self, flushed: bool) -> Report {
        if self.phase != Phase::Flushing {
            Report::Ignored
        } else if flushed {
            Report::Flushed
        } else if !self.timed_out {
            Report::FlushAgain
        } else {
            Report::FlushFailed
        }
    }

    /// The state after an event was received, refused `failures` times, each
    /// refusal followed by the wait, and then taken.
    pub open spec fn publish(self, message: MessageView, failures: nat) -> DispatcherView {
        self.received(message).refused(failures).enqueue_result(true)
    }

    /// The state after `failures` refusals, each followed by the wait.
    pub open spec fn refused(self, failures: nat) -> DispatcherView
        decreases failures,
    {
        if failures == 0 {
            self
        } else {
            self.enqueue_result(false).waited().refused((failures - 1) as nat)
        }
    }

    /// The state after each message of `messages` was received and
    /// published, the message at `i` after `failures[i]` refusals.
    pub open spec fn publish_all(self, messages: Seq<MessageView>, failures: Seq<nat>) -> DispatcherView
        decreases messages.len(),
    {
        if messages.len() == 0 || failures.len() != messages.len() {
            self
        } else {
            self.publish_all(messages.drop_last(), failures.drop_last()).publish(
                messages.last(),
                failures.last(),
            )
        }
    }
}

} // verus!

verus! {

/// Every outcome keeps what holds of every reachable state.
pub proof fn lemma_outcomes_keep_wf(s: DispatcherView, message: MessageView, flag: bool)
    requires
        s.wf(),
    ensures
        s.received(message).wf(),
        s.closed().wf(),
        s.end_of_stream().wf(),
        s.enqueue_result(flag).wf(),
        s.waited().wf(),
        s.flush_result(flag).wf(),
{
}

/// Refusals change nothing but their count: the message stays at hand, and
/// after each wait it is offered again.
pub proof fn lemma_refused(s: DispatcherView, failures: nat)
    requires
        s.action() == Action::Enqueue,
    ensures
        s.refused(failures) == (DispatcherView { retries: s.retries + failures, ..s }),
        s.refused(failures).action() == Action::Enqueue,
        s.refused(failures).enqueue_result(false).action() == (Action::Backoff {
            millis: RETRY_DELAY_MILLIS,
        }),
    decreases failures,
{
    if failures > 0 {
        let next = s.enqueue_result(false).waited();
        assert(next == DispatcherView { retries: s.retries + 1, ..s });
        lemma_refused(next, (failures - 1) as nat);
    }
}

/// A message that the producer refuses `failures` times and then takes is
/// sent exactly once, after `failures` retries, each behind the fixed
/// delay; then the dispatcher asks for the next event.
pub proof fn lemma_publish(s: DispatcherView, message: MessageView, failures: nat)
    requires
        s.wf(),
        s.action() == Action::Receive,
    ensures
        s.publish(message, failures).wf(),
        s.publish(message, failures).handed == s.handed.push(message),
        s.publish(message, failures).taken == s.taken.push(message),
        s.publish(message, failures).retries == s.retries + failures,
        s.publish(message, failures).pending is None,
        s.publish(message, failures).phase == s.phase,
        s.publish(message, failures).action() == Action::Receive,
        forall|k: nat|
            k <= failures ==> (#[trigger] s.received(message).refused(k)).pending == Some(message),
        forall|k: nat|
            k <= failures ==> (#[trigger] s.received(message).refused(k)).handed == s.handed,
{
    let got = s.received(message);
    lemma_refused(got, failures);
    assert forall|k: nat| k <= failures implies (#[trigger] got.refused(k)).pending == Some(
        message,
    ) && got.refused(k).handed == s.handed by {
        lemma_refused(got, k);
    }
}

/// However often each message is refused, all of them are handed to the
/// producer, in the order in which their events came, and the dispatcher
/// leaves its phase only at the end of the stream: it flushes when every
/// event it received was handed over, not before.
pub proof fn lemma_publish_all(s: DispatcherView, messages: Seq<MessageView>, failures: Seq<nat>)
    requires
        s.wf(),
        s.action() == Action::Receive,
        failures.len() == messages.len(),
    ensures
        s.publish_all(messages, failures).wf(),
        s.publish_all(messages, failures).phase == s.phase,
        s.publish_all(messages, failures).action() == Action::Receive,
        s.publish_all(messages, failures).handed == s.handed + messages,
        s.publish_all(messages, failures).taken == s.taken + messages,
        s.publish_all(messages, failures).end_of_stream().phase == Phase::Flushing,
        s.publish_all(messages, failures).end_of_stream().handed == s.handed + messages,
    decreases messages.len(),
{
    if messages.len() > 0 {
        lemma_publish_all(s, messages.drop_last(), failures.drop_last());
        lemma_publish(
            s.publish_all(messages.drop_last(), failures.drop_last()),
            messages.last(),
            failures.last(),
        );
        assert(messages =~= messages.drop_last().push(messages.last()));
        assert(s.handed + messages =~= (s.handed + messages.drop_last()).push(messages.last()));
        assert(s.taken + messages =~= (s.taken + messages.drop_last()).push(messages.last()));
    } else {
        assert(s.handed + messages =~= s.handed);
        assert(s.taken + messages =~= s.taken);
    }
}

/// Whatever waits in a channel when it is closed is handed to the producer,
/// event by event in the order of the channel and however often the
/// producer refuses, before the dispatcher starts to flush.
pub proof fn lemma_closed_channel_is_published(
    s: DispatcherView,
    channel: ChannelView,
    failures: Seq<nat>,
)
    requires
        s.wf(),
        s.action() == Action::Receive,
        channel.closed,
        failures.len() == channel.pending.len(),
    ensures
        s.publish_all(messages_of(channel.pending), failures).phase == s.phase,
        s.publish_all(messages_of(channel.pending), failures).handed == s.handed + messages_of(
            channel.pending,
        ),
        s.publish_all(messages_of(channel.pending), failures).end_of_stream().phase
            == Phase::Flushing,
        forall|k: int|
            0 <= k < channel.pending.len() ==> (#[trigger] s.publish_all(
                messages_of(channel.pending).subrange(0, k),
                failures.subrange(0, k),
            )).phase != Phase::Flushing,
{
    let messages = messages_of(channel.pending);
    lemma_publish_all(s, messages, failures);
    assert forall|k: int| 0 <= k < channel.pending.len() implies (#[trigger] s.publish_all(
        messages.subrange(0, k),
        failures.subrange(0, k),
    )).phase != Phase::Flushing by {
        lemma_publish_all(s, messages.subrange(0, k), failures.subrange(0, k));
    }
}

/// The dispatcher starts to flush only at the end of the stream, with no
/// message at hand: every event it received has then been handed over.
pub proof fn lemma_flushing_starts_at_end_of_stream(
    s: DispatcherView,
    message: MessageView,
    flag: bool,
)
    requires
        s.wf(),
        s.phase == Phase::Running || s.phase == Phase::Draining,
    ensures
        s.received(message).phase != Phase::Flushing,
        s.closed().phase != Phase::Flushing,
        s.enqueue_result(flag).phase != Phase::Flushing,
        s.waited().phase != Phase::Flushing,
        s.flush_result(flag).phase != Phase::Flushing,
        s.end_of_stream().phase == Phase::Flushing <==> s.pending is None,
        s.end_of_stream().phase == Phase::Flushing ==> s.end_of_stream().handed
            == s.end_of_stream().taken,
{
}

/// Two flushes that time out end the dispatcher, with the failure on
/// record; so does one flush that succeeds, at once or after one timeout,
/// with no failure.
pub proof fn lemma_flush_ends(s: DispatcherView)
    requires
        s.wf(),
        s.phase == Phase::Flushing,
        !s.timed_out,
    ensures
        s.flush_result(false).action() == (Action::Flush { timeout_millis: FLUSH_TIMEOUT_MILLIS }),
        s.flush_result(false).flush_result(false).phase == Phase::Terminated,
        s.flush_result(false).flush_result(false).flush_failed,
        s.flush_result(false).flush_report(false) == Report::FlushFailed,
        s.flush_result(false).flush_result(false).action() == Action::Stop,
        s.flush_result(false).flush_result(true).phase == Phase::Terminated,
        !s.flush_result(false).flush_result(true).flush_failed,
        s.flush_result(true).phase == Phase::Terminated,
        !s.flush_result(true).flush_failed,
{
}

/// The dispatcher.
pub struct Dispatcher {
    phase: Phase,
    pending: Option<Message>,
    waiting: bool,
    timed_out: bool,
    flush_failed: bool,
    taken: Ghost<Seq<MessageView>>,
    handed: Ghost<Seq<MessageView>>,
    retries: Ghost<nat>,
}

impl View for Dispatcher {
    type V = DispatcherView;

    closed spec fn view(&self) -> DispatcherView {
        DispatcherView {
            phase: self.phase,
            pending: match self.pending {
                Some(m) => Some(m@),
                None => None,
            },
            waiting: self.waiting,
            timed_out: self.timed_out,
            flush_failed: self.flush_failed,
            taken: self.taken@,
            handed: self.handed@,
            retries: self.retries@,
        }
    }
}

/// The state in which the dispatcher starts.
pub open spec fn initial() -> DispatcherView {
    DispatcherView {
        phase: Phase::Running,
        pending: None,
        waiting: false,
        timed_out: false,
        flush_failed: false,
        taken: Seq::empty(),
        handed: Seq::empty(),
        retries: 0,
    }
}

impl Dispatcher {
    /// A dispatcher that has received nothing yet.
    pub fn new() -> (dispatcher: Self)
        ensures
            dispatcher@ == initial(),
            dispatcher@.wf(),
    {
        Dispatcher {
            phase: Phase::Running,
            pending: None,
            waiting: false,
            timed_out: false,
            flush_failed: false,
            taken: Ghost(Seq::empty()),
            handed: Ghost(Seq::empty()),
            retries: Ghost(0),
        }
    }

    /// Where the dispatcher stands.
    pub fn phase(&self) -> (phase: Phase)
        ensures
            phase == self@.phase,
    {
        self.phase
    }

    /// Whether the second flush timed out.
    pub fn flush_failed(&self) -> (failed: bool)
        ensures
            failed == self@.flush_failed,
    {
        self.flush_failed
    }

    /// The message at hand, if there is one.
    pub fn message(&self) -> (message: Option<&Message>)
        ensures
            match message {
                Some(m) => self@.pending == Some(m@),
                None => self@.pending is None,
            },
    {
        self.pending.as_ref()
    }

    /// The step that comes next.
    pub fn next_action(&self) -> (action: Action)
        ensures
            action == self@.action(),
    {
        match self.phase {
            Phase::Running | Phase::Draining => if self.pending.is_none() {
                Action::Receive
            } else if self.waiting {
                Action::Backoff { millis: RETRY_DELAY_MILLIS }
            } else {
                Action::Enqueue
            },
            Phase::Flushing => Action::Flush { timeout_millis: FLUSH_TIMEOUT_MILLIS },
            Phase::Terminated => Action::Stop,
        }
    }

    /// Takes the event that was received, where the dispatcher asked for
    /// one: its message is now at hand. Where it asked for another step,
    /// nothing changes and the answer is `false`.
    pub fn on_received(&mut self, event: &Event) -> (taken: bool)
        ensures
            taken == (old(self)@.action() == Action::Receive),
            !taken ==> final(self)@ == old(self)@,
            taken ==> final(self)@ == old(self)@.received(message_of(event@)),
            old(self)@.wf() ==> final(self)@.wf(),
    {
        if self.next_action() != Action::Receive {
            return false;
        }
        let message = Message::of(event);
        self.taken = Ghost(self.taken@.push(message@));
        self.pending = Some(message);
        true
    }

    /// Notes that the sending side closed the channel.
    pub fn on_closed(&mut self)
        ensures
            final(self)@ == old(self)@.closed(),
            old(self)@.wf() ==> final(self)@.wf(),
    {
        if self.phase == Phase::Running {
            self.phase = Phase::Draining;
        }
    }

    /// Notes that the channel reported the end of the stream.
    pub fn on_end_of_stream(&mut self)
        ensures
            final(self)@ == old(self)@.end_of_stream(),
            old(self)@.wf() ==> final(self)@.wf(),
    {
        if self.next_action() == Action::Receive {
            self.phase = Phase::Flushing;
        }
    }

    /// Notes whether the producer took the message at hand.
    pub fn on_enqueue_result(&mut self, accepted: bool) -> (report: Report)
        ensures
            final(self)@ == old(self)@.enqueue_result(accepted),
            report == old(self)@.enqueue_report(accepted),
            old(self)@.wf() ==> final(self)@.wf(),
    {
        if self.next_action() != Action::Enqueue {
            Report::Ignored
        } else if accepted {
            self.handed = Ghost(self.handed@.push(self@.pending.unwrap()));
            self.pending = None;
            Report::Sent
        } else {
            self.waiting = true;
            self.retries = Ghost((self.retries@ + 1) as nat);
            Report::Retrying
        }
    }

    /// Notes that the wait before the next offer is over.
    pub fn on_waited(&mut self)
        ensures
            final(self)@ == old(self)@.waited(),
            old(self)@.wf() ==> final(self)@.wf(),
    {
        self.waiting = false;
    }

    /// Notes whether a flush ended in time.
    pub fn on_flush_result(&mut self, flushed: bool) -> (report: Report)
        ensures
            final(self)@ == old(self)@.flush_result(flushed),
            report == old(self)@.flush_report(flushed),
            old(self)@.wf() ==> final(self)@.wf(),
    {
        if self.phase != Phase::Flushing {
            Report::Ignored
        } else if flushed {
            self.phase = Phase::Terminated;
            Report::Flushed
        } else if !self.timed_out {
            self.timed_out = true;
            Report::FlushAgain
        } else {
            self.phase = Phase::Terminated;
            self.flush_failed = true;
            Report::FlushFailed
        }
    }

    /// Receives from `channel`, where the dispatcher asks for an event:
    /// takes the oldest event that waits, or, where none waits, starts to
    /// flush if the channel is closed. Returns whether the dispatcher has
    /// to wait for an event. Where the dispatcher asks for another step,
    /// nothing changes.
    pub fn pull(&mut self, channel: &mut EventChannel) -> (idle: bool)
        ensures
            old(self)@.wf() ==> final(self)@.wf(),
            old(self)@.action() != Action::Receive ==> {
                &&& !idle
                &&& final(self)@ == old(self)@
                &&& final(channel)@ == old(channel)@
            },
            old(self)@.action() == Action::Receive ==> {
                &&& final(channel)@ == old(channel)@.receive()
                &&& idle <==> old(channel)@.pending.len() == 0 && !old(channel)@.closed
                &&& idle ==> final(self)@ == old(self)@
                &&& old(channel)@.pending.len() > 0 ==> final(self)@ == (if old(
                    channel)@.closed {
                    old(self)@.closed()
                } else {
                    old(self)@
                }).received(message_of(old(channel)@.pending[0]@))
                &&& old(channel)@.pending.len() == 0 && old(channel)@.closed ==> final(self)@
                    == old(self)@.closed().end_of_stream()
                &&& final(self)@.phase == Phase::Flushing <==> old(channel)@.closed && old(
                    channel)@.pending.len() == 0
            },
    {
        if self.next_action() != Action::Receive {
            return false;
        }
        let closed = channel.is_closed();
        match channel.try_receive() {
            Received::Event(event) => {
                if closed {
                    self.on_closed();
                }
                let taken = self.on_received(&event);
                false
            },
            Received::Empty => true,
            Received::EndOfStream => {
                self.on_closed();
                self.on_end_of_stream();
                false
            },
        }
    }
}

} // verus!
