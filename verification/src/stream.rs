//! The client of the message broker: how it is configured and made, and the
//! three calls that the dispatcher makes on it.

use vstd::prelude::*;
use crate::dispatcher::{Action, Dispatcher, FLUSH_TIMEOUT_MILLIS, Message, Phase, Report};
use crate::event::Event;
use crate::payload::payload;
use crate::settings::ProducerSettings;

verus! {

/// `rdkafka::error::KafkaError`, carried through as it comes.
#[verifier::external_type_specification]
#[verifier::external_body]
pub struct ExKafkaError(rdkafka::error::KafkaError);

/// `rdkafka::config::ClientConfig`, of which only the installed entries are
/// spoken of.
#[verifier::external_type_specification]
#[verifier::external_body]
pub struct ExClientConfig(rdkafka::config::ClientConfig);

/// What a client configuration holds: the value installed for each key.
pub uninterp spec fn config_entries(config: rdkafka::config::ClientConfig) -> Map<
    Seq<char>,
    Seq<char>,
>;

/// `ClientConfig::new`: a configuration with no entry.
#[verifier::external_body]
fn config_new() -> (config: rdkafka::config::ClientConfig)
    ensures
        config_entries(config) == (Map::<Seq<char>, Seq<char>>::empty()),
{
    rdkafka::config::ClientConfig::new()
}

/// `ClientConfig::set`: installs `value` for `key`, in place of what was
/// installed for it before, and leaves the other entries as they were.
#[verifier::external_body]
fn config_set(config: &mut rdkafka::config::ClientConfig, key: &str, value: &str)
    ensures
        config_entries(*final(config)) == config_entries(*old(config)).insert(key@, value@),
{
    config.set(key, value);
}

/// A `rdkafka::producer::BaseProducer` with the default context. Nothing is
/// known of what is inside.
#[verifier::external_body]
pub struct ProducerHandle {
    inner: rdkafka::producer::BaseProducer,
}

/// `BaseProducer::from_config`: makes the producer, or says why it could
/// not. Whether it succeeds lies with the client library and the settings:
/// nothing is claimed of the result.
#[verifier::external_body]
fn create_producer(config: &rdkafka::config::ClientConfig) -> (r: Result<
    ProducerHandle,
    rdkafka::error::KafkaError,
>) {
    match rdkafka::config::FromClientConfig::from_config(config) {
        Ok(inner) => Ok(ProducerHandle { inner }),
        Err(e) => Err(e),
    }
}

/// `BaseProducer::send` on a record made of topic, key and payload: puts the
/// message into the send buffer of the client without waiting, or says why
/// it could not. Which of the two lies with the buffer, with one exception
/// that is claimed here: a topic that holds a NUL character cannot be handed
/// to the client, and the call fails before it reaches the buffer.
#[verifier::external_body]
fn send_record(producer: &ProducerHandle, topic: &str, key: &str, payload: &[u8]) -> (r: Result<
    (),
    rdkafka::error::KafkaError,
>)
    ensures
        topic@.contains('\0') ==> r is Err,
{
    match producer.inner.send(rdkafka::producer::BaseRecord::to(topic).key(key).payload(payload)) {
        Ok(()) => Ok(()),
        Err((e, _)) => Err(e),
    }
}

/// `BaseProducer::poll` with no time to wait: runs the delivery callbacks
/// that are due.
#[verifier::external_body]
fn poll_producer(producer: &ProducerHandle) {
    producer.inner.poll(std::time::Duration::from_millis(0));
}

/// `Producer::flush`: waits until every message is acknowledged or the time
/// is over, and says which. Nothing is claimed of the result.
#[verifier::external_body]
fn flush_producer(producer: &ProducerHandle, timeout_millis: u64) -> (r: Result<
    (),
    rdkafka::error::KafkaError,
>) {
    rdkafka::producer::Producer::flush(
        &producer.inner,
        std::time::Duration::from_millis(timeout_millis),
    )
}

/// The `Display` text of a `KafkaError`.
#[verifier::external_body]
fn error_text(error: &rdkafka::error::KafkaError) -> (text: String) {
    error.to_string()
}

/// What can go wrong between the dispatcher and the broker.
#[derive(Debug, Clone, PartialEq, Eq)]
pub enum StreamError {
    /// The client could not be made from the settings. Nothing can be
    /// published: the process must not start.
    Configuration { reason: String },
    /// The send buffer of the client took no message. The message is
    /// offered again after the delay.
    EnqueueBackpressure { reason: String },
    /// A flush did not end in time.
    FlushTimeout { reason: String },
}

impl StreamError {
    /// Whether the process has to stop on this error. Only a client that
    /// cannot be made is such an error.
    pub fn is_fatal(&self) -> (fatal: bool)
        ensures
            fatal == (*self is Configuration),
    {
        match self {
            StreamError::Configuration { .. } => true,
            _ => false,
        }
    }

    /// What the client library said of the error.
    pub fn reason(&self) -> (reason: &String)
        ensures
            *reason == match *self {
                StreamError::Configuration { reason } => reason,
                StreamError::EnqueueBackpressure { reason } => reason,
                StreamError::FlushTimeout { reason } => reason,
            },
    {
        match self {
            StreamError::Configuration { reason } => reason,
            StreamError::EnqueueBackpressure { reason } => reason,
            StreamError::FlushTimeout { reason } => reason,
        }
    }
}

/// The client configuration that `settings` asks for: the entries of
/// `config_map`, and no other.
pub fn client_config(settings: &ProducerSettings) -> (config: rdkafka::config::ClientConfig)
    ensures
        config_entries(config) == settings.config_map(),
{
    let mut config = config_new();
    config_set(&mut config, "bootstrap.servers", settings.bootstrap_servers.as_str());
    config_set(&mut config, "message.timeout.ms", settings.message_timeout_ms.as_str());
    config_set(&mut config, "client.id", settings.client_id.as_str());
    config_set(&mut config, "sasl.mechanisms", "PLAIN");
    config_set(&mut config, "security.protocol", "SASL_SSL");
    config_set(&mut config, "sasl.username", settings.api_key.as_str());
    config_set(&mut config, "sasl.password", settings.api_secret.as_str());
    config_set(&mut config, "linger.ms", settings.linger_ms.as_str());
    config_set(&mut config, "compression.codec", settings.compression_codec.as_str());
    config_set(&mut config, "socket.keepalive.enable", settings.socket_keepalive_enable.as_str());
    config_set(&mut config, "metadata.max.age.ms", settings.metadata_max_age_ms.as_str());
    config_set(&mut config, "connections.max.idle.ms", settings.connections_max_idle_ms.as_str());
    config
}

/// The client of the broker, with the topic that it publishes to.
pub struct StreamClient {
    producer: ProducerHandle,
    topic: String,
}

impl StreamClient {
    /// The topic that every message goes to.
    pub closed spec fn topic_text(&self) -> Seq<char> {
        self.topic@
    }

    /// The client that was asked for, or the error that ends the start.
    pub fn assemble(
        made: Result<ProducerHandle, rdkafka::error::KafkaError>,
        topic: String,
    ) -> (r: Result<StreamClient, StreamError>)
        ensures
            made is Ok <==> r is Ok,
            r matches Ok(client) ==> client.topic_text() == topic@,
            r matches Err(error) ==> error is Configuration,
    {
        match made {
            Ok(producer) => Ok(StreamClient { producer, topic }),
            Err(error) => Err(StreamError::Configuration { reason: error_text(&error) }),
        }
    }

    /// Makes the client from `settings`. The client library decides whether
    /// it can be made; where it cannot, the error is a configuration error.
    pub fn new(settings: &ProducerSettings) -> (r: Result<StreamClient, StreamError>)
        ensures
            r matches Ok(client) ==> client.topic_text() == settings.topic@,
            r matches Err(error) ==> error is Configuration,
    {
        let config = client_config(settings);
        let made = create_producer(&config);
        StreamClient::assemble(made, settings.topic.clone())
    }

    /// The topic that every message goes to.
    pub fn topic(&self) -> (topic: &str)
        ensures
            topic@ == self.topic_text(),
    {
        self.topic.as_str()
    }

    /// What an offer to the client came to: taken, or backpressure.
    pub fn enqueue_outcome(sent: Result<(), rdkafka::error::KafkaError>) -> (r: Result<
        (),
        StreamError,
    >)
        ensures
            sent is Ok <==> r is Ok,
            r matches Err(error) ==> error is EnqueueBackpressure,
    {
        match sent {
            Ok(()) => Ok(()),
            Err(error) => Err(StreamError::EnqueueBackpressure { reason: error_text(&error) }),
        }
    }

    /// What a flush came to: done, or timed out.
    pub fn flush_outcome(flushed: Result<(), rdkafka::error::KafkaError>) -> (r: Result<
        (),
        StreamError,
    >)
        ensures
            flushed is Ok <==> r is Ok,
            r matches Err(error) ==> error is FlushTimeout,
    {
        match flushed {
            Ok(()) => Ok(()),
            Err(error) => Err(StreamError::FlushTimeout { reason: error_text(&error) }),
        }
    }

    /// Offers one message to the client, without waiting. The client takes
    /// it into its send buffer or refuses it; a refusal is backpressure, and
    /// nothing is tried again here. Under a topic that holds a NUL character
    /// every message is refused.
    pub fn enqueue(&self, key: &str, payload: &[u8]) -> (r: Result<(), StreamError>)
        ensures
            r matches Err(error) ==> error is EnqueueBackpressure,
            self.topic_text().contains('\0') ==> r is Err,
    {
        StreamClient::enqueue_outcome(send_record(&self.producer, self.topic.as_str(), key, payload))
    }

    /// Runs the delivery callbacks that are due.
    pub fn poll(&self) {
        poll_producer(&self.producer);
    }

    /// Waits until every message that was taken is acknowledged, for at most
    /// `timeout_millis`.
    pub fn flush(&self, timeout_millis: u64) -> (r: Result<(), StreamError>)
        ensures
            r matches Err(error) ==> error is FlushTimeout,
    {
        StreamClient::flush_outcome(flush_producer(&self.producer, timeout_millis))
    }

    /// Publishes `event` once: polls the client, then offers it the message
    /// of the event, under the key of the event. Where the client refuses,
    /// the caller waits and publishes again. Under a topic that holds a NUL
    /// character every event is refused.
    pub fn emit(&self, event: &Event) -> (r: Result<(), StreamError>)
        ensures
            r matches Err(error) ==> error is EnqueueBackpressure,
            self.topic_text().contains('\0') ==> r is Err,
    {
        let message = Message::of(event);
        self.poll();
        self.enqueue(message.key.as_str(), message.payload.as_slice())
    }

    /// Offers the message that `dispatcher` has at hand, where it asks for
    /// that, and tells it what came of the offer. As before every offer, the
    /// client is polled first.
    pub fn offer(&self, dispatcher: &mut Dispatcher) -> (report: Report)
        ensures
            old(dispatcher)@.wf() ==> final(dispatcher)@.wf(),
            old(dispatcher)@.action() != Action::Enqueue ==> report == Report::Ignored && final(dispatcher)@ == old(dispatcher)@,
            old(dispatcher)@.action() == Action::Enqueue ==> {
                ||| report == Report::Sent && final(dispatcher)@ == old(dispatcher)@.enqueue_result(true)
                ||| report == Report::Retrying && final(dispatcher)@ == old(dispatcher)@.enqueue_result(false)
            },
    {
        if dispatcher.next_action() != Action::Enqueue {
            return Report::Ignored;
        }
        self.poll();
        let accepted = match dispatcher.message() {
            Some(message) => self.enqueue(
                message.key.as_str(),
                message.payload.as_slice(),
            ).is_ok(),
            None => false,
        };
        dispatcher.on_enqueue_result(accepted)
    }

    /// Flushes once for `dispatcher`, where it asks for that, and tells it
    /// whether the flush ended in time.
    pub fn flush_for(&self, dispatcher: &mut Dispatcher) -> (report: Report)
        ensures
            old(dispatcher)@.wf() ==> final(dispatcher)@.wf(),
            old(dispatcher)@.phase != Phase::Flushing ==> report == Report::Ignored && final(dispatcher)@ == old(dispatcher)@,
            old(dispatcher)@.phase == Phase::Flushing ==> {
                ||| final(dispatcher)@ == old(dispatcher)@.flush_result(true) && report == old(dispatcher)@.flush_report(true)
                ||| final(dispatcher)@ == old(dispatcher)@.flush_result(false) && report == old(dispatcher)@.flush_report(false)
            },
    {
        if dispatcher.phase() != Phase::Flushing {
            return Report::Ignored;
        }
        let flushed = self.flush(FLUSH_TIMEOUT_MILLIS).is_ok();
        dispatcher.on_flush_result(flushed)
    }

    /// Ends a dispatcher that flushes: one flush, one more where the first
    /// timed out, and the dispatcher has stopped, whatever came of them.
    /// Returns whether no flush failure is on record. A dispatcher that does
    /// not flush is left as it is.
    pub fn shut_down(&self, dispatcher: &mut Dispatcher) -> (acknowledged: bool)
        ensures
            old(dispatcher)@.wf() ==> final(dispatcher)@.wf(),
            old(dispatcher)@.phase == Phase::Flushing ==> final(dispatcher)@.phase
                == Phase::Terminated,
            old(dispatcher)@.phase != Phase::Flushing ==> final(dispatcher)@ == old(dispatcher)@,
            acknowledged == !final(dispatcher)@.flush_failed,
            final(dispatcher)@.handed == old(dispatcher)@.handed,
            final(dispatcher)@.taken == old(dispatcher)@.taken,
            final(dispatcher)@.pending == old(dispatcher)@.pending,
    {
        let first = self.flush_for(dispatcher);
        if dispatcher.phase() == Phase::Flushing {
            let second = self.flush_for(dispatcher);
        }
        !dispatcher.flush_failed()
    }
}

} // verus!
