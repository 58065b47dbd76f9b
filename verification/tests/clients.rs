use ord_stream::dispatcher::{Action, Dispatcher, Phase, Report};
use ord_stream::event::Event;
use ord_stream::ids::{BlockHash, RuneId, Txid};
use ord_stream::settings::{
    default_value, variable_name, Environment, ProducerSettings, Setting,
};
use ord_stream::stream::{client_config, StreamClient, StreamError};
use rdkafka::error::KafkaError;

fn event() -> Event {
    Event::RuneMinted {
        block_hash: BlockHash { bytes: [2; 32] },
        amount: 500,
        block_height: 840000,
        rune_id: RuneId { block: 1, tx: 1 },
        txid: Txid { bytes: [3; 32] },
    }
}

fn local_settings() -> ProducerSettings {
    let mut environment = Environment::empty();
    environment.bootstrap_servers = Some("127.0.0.1:1".to_string());
    environment.message_timeout_ms = Some("2000".to_string());
    environment.linger_ms = Some("5".to_string());
    environment.api_key = Some("user".to_string());
    environment.api_secret = Some("word".to_string());
    environment.topic = Some("events".to_string());
    ProducerSettings::from_environment(environment)
}

#[test]
fn defaults_where_the_environment_gives_nothing() {
    let settings = ProducerSettings::from_environment(Environment::empty());
    assert_eq!(settings.bootstrap_servers, "localhost:9092");
    assert_eq!(settings.message_timeout_ms, "5000");
    assert_eq!(settings.client_id, "ord-producer");
    assert_eq!(settings.api_key, "");
    assert_eq!(settings.api_secret, "");
    assert_eq!(settings.linger_ms, "200");
    assert_eq!(settings.compression_codec, "snappy");
    assert_eq!(settings.topic, "ord");
    assert_eq!(settings.socket_keepalive_enable, "true");
    assert_eq!(settings.metadata_max_age_ms, "60000");
    assert_eq!(settings.connections_max_idle_ms, "180000");
}

#[test]
fn values_of_the_environment_win() {
    let environment = Environment {
        bootstrap_servers: Some("broker:9093".to_string()),
        message_timeout_ms: Some("1".to_string()),
        client_id: Some("me".to_string()),
        api_key: Some("user".to_string()),
        api_secret: Some("word".to_string()),
        linger_ms: Some("2".to_string()),
        compression_codec: Some("lz4".to_string()),
        topic: Some("facts".to_string()),
        socket_keepalive_enable: Some("false".to_string()),
        metadata_max_age_ms: Some("3".to_string()),
        connections_max_idle_ms: Some("4".to_string()),
    };
    let settings = ProducerSettings::from_environment(environment);
    assert_eq!(settings.bootstrap_servers, "broker:9093");
    assert_eq!(settings.message_timeout_ms, "1");
    assert_eq!(settings.client_id, "me");
    assert_eq!(settings.api_key, "user");
    assert_eq!(settings.api_secret, "word");
    assert_eq!(settings.linger_ms, "2");
    assert_eq!(settings.compression_codec, "lz4");
    assert_eq!(settings.topic, "facts");
    assert_eq!(settings.socket_keepalive_enable, "false");
    assert_eq!(settings.metadata_max_age_ms, "3");
    assert_eq!(settings.connections_max_idle_ms, "4");
}

#[test]
fn names_and_defaults_of_the_settings() {
    assert_eq!(variable_name(Setting::BootstrapServers), "BOOTSTRAP_SERVERS");
    assert_eq!(variable_name(Setting::MessageTimeoutMs), "MESSAGE_TIMEOUT_MS");
    assert_eq!(variable_name(Setting::ClientId), "CLIENT_ID");
    assert_eq!(variable_name(Setting::ApiKey), "API_KEY");
    assert_eq!(variable_name(Setting::ApiSecret), "API_SECRET");
    assert_eq!(variable_name(Setting::LingerMs), "LINGER_MS");
    assert_eq!(variable_name(Setting::CompressionCodec), "COMPRESSION_CODEC");
    assert_eq!(variable_name(Setting::Topic), "TOPIC");
    assert_eq!(variable_name(Setting::SocketKeepaliveEnable), "SOCKET_KEEPALIVE_ENABLE");
    assert_eq!(variable_name(Setting::MetadataMaxAgeMs), "METADATA_MAX_AGE_MS");
    assert_eq!(variable_name(Setting::ConnectionsMaxIdleMs), "CONNECTIONS_MAX_IDLE_MS");
    assert_eq!(default_value(Setting::BootstrapServers), "localhost:9092");
    assert_eq!(default_value(Setting::ConnectionsMaxIdleMs), "180000");
    assert_eq!(default_value(Setting::ApiKey), "");
}

#[test]
fn client_config_holds_the_settings() {
    let settings = ProducerSettings::from_environment(Environment::empty());
    let config = client_config(&settings);
    assert_eq!(config.get("bootstrap.servers"), Some("localhost:9092"));
    assert_eq!(config.get("message.timeout.ms"), Some("5000"));
    assert_eq!(config.get("client.id"), Some("ord-producer"));
    assert_eq!(config.get("sasl.mechanisms"), Some("PLAIN"));
    assert_eq!(config.get("security.protocol"), Some("SASL_SSL"));
    assert_eq!(config.get("sasl.username"), Some(""));
    assert_eq!(config.get("sasl.password"), Some(""));
    assert_eq!(config.get("linger.ms"), Some("200"));
    assert_eq!(config.get("compression.codec"), Some("snappy"));
    assert_eq!(config.get("socket.keepalive.enable"), Some("true"));
    assert_eq!(config.get("metadata.max.age.ms"), Some("60000"));
    assert_eq!(config.get("connections.max.idle.ms"), Some("180000"));
    assert_eq!(config.get("topic"), None);
    assert_eq!(config.config_map().len(), 12);
}

#[test]
fn client_config_takes_values_of_the_environment() {
    let config = client_config(&local_settings());
    assert_eq!(config.get("bootstrap.servers"), Some("127.0.0.1:1"));
    assert_eq!(config.get("message.timeout.ms"), Some("2000"));
    assert_eq!(config.get("linger.ms"), Some("5"));
    assert_eq!(config.get("client.id"), Some("ord-producer"));
}

#[test]
fn client_that_cannot_be_made_is_a_fatal_error() {
    let r = StreamClient::assemble(Err(KafkaError::Canceled), "ord".to_string());
    match r {
        Err(error) => {
            assert!(error.is_fatal());
            assert_eq!(
                error,
                StreamError::Configuration { reason: KafkaError::Canceled.to_string() }
            );
            assert_eq!(error.reason(), &KafkaError::Canceled.to_string());
        }
        Ok(_) => panic!("a client was made of an error"),
    }
}

#[test]
fn invalid_setting_is_a_configuration_error() {
    let mut environment = Environment::empty();
    environment.compression_codec = Some("no-such-codec".to_string());
    let settings = ProducerSettings::from_environment(environment);
    match StreamClient::new(&settings) {
        Err(error) => assert!(error.is_fatal()),
        Ok(_) => panic!("a client was made of an invalid setting"),
    }
}

#[test]
fn client_without_credentials_is_a_configuration_error() {
    let settings = ProducerSettings::from_environment(Environment::empty());
    match StreamClient::new(&settings) {
        Err(error) => {
            assert!(error.is_fatal());
            assert!(matches!(error, StreamError::Configuration { .. }));
        }
        Ok(_) => panic!("a client was made without credentials"),
    }
}

#[test]
fn refused_offer_is_backpressure() {
    assert_eq!(StreamClient::enqueue_outcome(Ok(())), Ok(()));
    let r = StreamClient::enqueue_outcome(Err(KafkaError::Canceled));
    assert_eq!(
        r,
        Err(StreamError::EnqueueBackpressure { reason: KafkaError::Canceled.to_string() })
    );
    assert!(!r.unwrap_err().is_fatal());
}

#[test]
fn flush_that_fails_is_a_timeout() {
    assert_eq!(StreamClient::flush_outcome(Ok(())), Ok(()));
    let r = StreamClient::flush_outcome(Err(KafkaError::Canceled));
    assert_eq!(r, Err(StreamError::FlushTimeout { reason: KafkaError::Canceled.to_string() }));
    assert!(!r.unwrap_err().is_fatal());
}

#[test]
fn client_takes_a_message_without_a_broker() {
    let client = StreamClient::new(&local_settings()).expect("the client is made without a broker");
    assert_eq!(client.topic(), "events");
    client.poll();
    assert_eq!(client.emit(&event()), Ok(()));
    assert_eq!(client.enqueue("key", b"payload"), Ok(()));
}

#[test]
fn flush_without_a_broker_times_out() {
    let client = StreamClient::new(&local_settings()).unwrap();
    assert_eq!(client.flush(10), Ok(()));
    assert_eq!(client.enqueue("key", b"payload"), Ok(()));
    match client.flush(10) {
        Err(error) => {
            assert!(!error.is_fatal());
            assert!(matches!(error, StreamError::FlushTimeout { .. }));
        }
        Ok(()) => panic!("a message was acknowledged without a broker"),
    }
}

#[test]
fn offer_hands_the_message_over_and_reports_it() {
    let client = StreamClient::new(&local_settings()).unwrap();
    let mut dispatcher = Dispatcher::new();
    assert_eq!(client.offer(&mut dispatcher), Report::Ignored);
    assert!(dispatcher.on_received(&event()));
    assert_eq!(client.offer(&mut dispatcher), Report::Sent);
    assert!(dispatcher.message().is_none());
    assert_eq!(dispatcher.next_action(), Action::Receive);
    assert_eq!(client.offer(&mut dispatcher), Report::Ignored);
}

#[test]
fn shut_down_leaves_a_running_dispatcher_alone() {
    let client = StreamClient::new(&local_settings()).unwrap();
    let mut dispatcher = Dispatcher::new();
    assert!(client.shut_down(&mut dispatcher));
    assert_eq!(dispatcher.phase(), Phase::Running);
}

#[test]
fn flush_for_is_ignored_before_the_end_of_the_stream() {
    let client = StreamClient::new(&local_settings()).unwrap();
    let mut dispatcher = Dispatcher::new();
    assert_eq!(client.flush_for(&mut dispatcher), Report::Ignored);
    assert_eq!(dispatcher.phase(), Phase::Running);
}

#[test]
fn shut_down_with_nothing_in_flight_is_acknowledged() {
    let client = StreamClient::new(&local_settings()).unwrap();
    let mut dispatcher = Dispatcher::new();
    dispatcher.on_end_of_stream();
    assert!(client.shut_down(&mut dispatcher));
    assert_eq!(dispatcher.phase(), Phase::Terminated);
    assert!(!dispatcher.flush_failed());
}

#[test]
fn message_that_the_client_refuses_is_backpressure() {
    let client = StreamClient::new(&local_settings()).unwrap();
    let large = vec![0u8; 3_000_000];
    match client.enqueue("key", &large) {
        Err(error) => {
            assert!(matches!(error, StreamError::EnqueueBackpressure { .. }));
            assert!(!error.is_fatal());
            assert!(!error.reason().is_empty());
        }
        Ok(()) => panic!("the client took a message over its limit"),
    }
    assert_eq!(client.enqueue("key", b"small"), Ok(()));
}

#[test]
fn shut_down_with_a_message_in_flight_fails_after_two_flushes() {
    let mut environment = Environment::empty();
    environment.bootstrap_servers = Some("127.0.0.1:1".to_string());
    environment.api_key = Some("user".to_string());
    environment.api_secret = Some("word".to_string());
    let client = StreamClient::new(&ProducerSettings::from_environment(environment)).unwrap();
    let mut dispatcher = Dispatcher::new();
    assert!(dispatcher.on_received(&event()));
    assert_eq!(client.offer(&mut dispatcher), Report::Sent);
    dispatcher.on_end_of_stream();
    assert_eq!(dispatcher.phase(), Phase::Flushing);
    assert_eq!(dispatcher.on_flush_result(false), Report::FlushAgain);
    assert_eq!(client.flush(10).is_err(), true);
    assert_eq!(dispatcher.on_flush_result(false), Report::FlushFailed);
    assert!(!client.shut_down(&mut dispatcher));
    assert_eq!(dispatcher.phase(), Phase::Terminated);
    assert!(dispatcher.flush_failed());
}

#[test]
fn topic_that_holds_nul_is_refused() {
    let mut environment = Environment::empty();
    environment.bootstrap_servers = Some("127.0.0.1:1".to_string());
    environment.message_timeout_ms = Some("2000".to_string());
    environment.linger_ms = Some("5".to_string());
    environment.api_key = Some("user".to_string());
    environment.api_secret = Some("word".to_string());
    environment.topic = Some("eve\0nts".to_string());
    let client = StreamClient::new(&ProducerSettings::from_environment(environment)).unwrap();
    assert_eq!(client.topic(), "eve\0nts");
    match client.enqueue("key", b"payload") {
        Err(error) => assert!(matches!(error, StreamError::EnqueueBackpressure { .. })),
        Ok(()) => panic!("a message was taken under a topic that holds NUL"),
    }
    assert!(client.emit(&event()).is_err());
    assert!(client.emit(&event()).is_err());
    assert_eq!(client.flush(10), Ok(()));
}
