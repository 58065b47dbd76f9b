//! The settings of the producer: what the environment gives, and what is
//! taken where it gives nothing.

use vstd::prelude::*;
use vstd::string::StringExecFns;

verus! {

/// The values found in the environment, `None` for a variable that is not
/// set. Each field is read from the variable that `variable_name` gives.
pub struct Environment {
    pub bootstrap_servers: Option<String>,
    pub message_timeout_ms: Option<String>,
    pub client_id: Option<String>,
    pub api_key: Option<String>,
    pub api_secret: Option<String>,
    pub linger_ms: Option<String>,
    pub compression_codec: Option<String>,
    pub topic: Option<String>,
    pub socket_keepalive_enable: Option<String>,
    pub metadata_max_age_ms: Option<String>,
    pub connections_max_idle_ms: Option<String>,
}

/// One setting of the producer.
#[derive(Debug, Clone, Copy, PartialEq, Eq, Structural)]
pub enum Setting {
    BootstrapServers,
    MessageTimeoutMs,
    ClientId,
    ApiKey,
    ApiSecret,
    LingerMs,
    CompressionCodec,
    Topic,
    SocketKeepaliveEnable,
    MetadataMaxAgeMs,
    ConnectionsMaxIdleMs,
}

/// The settings with which the producer is made.
#[derive(Debug, Clone, PartialEq, Eq)]
pub struct ProducerSettings {
    pub bootstrap_servers: String,
    pub message_timeout_ms: String,
    pub client_id: String,
    pub api_key: String,
    pub api_secret: String,
    pub linger_ms: String,
    pub compression_codec: String,
    pub topic: String,
    pub socket_keepalive_enable: String,
    pub metadata_max_age_ms: String,
    pub connections_max_idle_ms: String,
}

/// The name of the environment variable of a setting.
pub open spec fn variable_text(setting: Setting) -> Seq<char> {
    match setting {
        Setting::BootstrapServers => "BOOTSTRAP_SERVERS"@,
        Setting::MessageTimeoutMs => "MESSAGE_TIMEOUT_MS"@,
        Setting::ClientId => "CLIENT_ID"@,
        Setting::ApiKey => "API_KEY"@,
        Setting::ApiSecret => "API_SECRET"@,
        Setting::LingerMs => "LINGER_MS"@,
        Setting::CompressionCodec => "COMPRESSION_CODEC"@,
        Setting::Topic => "TOPIC"@,
        Setting::SocketKeepaliveEnable => "SOCKET_KEEPALIVE_ENABLE"@,
        Setting::MetadataMaxAgeMs => "METADATA_MAX_AGE_MS"@,
        Setting::ConnectionsMaxIdleMs => "CONNECTIONS_MAX_IDLE_MS"@,
    }
}

/// The value of a setting where the environment gives none.
pub open spec fn default_text(setting: Setting) -> Seq<char> {
    match setting {
        Setting::BootstrapServers => "localhost:9092"@,
        Setting::MessageTimeoutMs => "5000"@,
        Setting::ClientId => "ord-producer"@,
        Setting::ApiKey => ""@,
        Setting::ApiSecret => ""@,
        Setting::LingerMs => "200"@,
        Setting::CompressionCodec => "snappy"@,
        Setting::Topic => "ord"@,
        Setting::SocketKeepaliveEnable => "true"@,
        Setting::MetadataMaxAgeMs => "60000"@,
        Setting::ConnectionsMaxIdleMs => "180000"@,
    }
}

/// The value of a setting: what was found, or the default.
pub open spec fn resolved(setting: Setting, found: Option<String>) -> Seq<char> {
    match found {
        Some(value) => value@,
        None => default_text(setting),
    }
}

/// The name of the environment variable of `setting`.
pub fn variable_name(setting: Setting) -> (name: &'static str)
    ensures
        name@ == variable_text(setting),
{
    match setting {
        Setting::BootstrapServers => "BOOTSTRAP_SERVERS",
        Setting::MessageTimeoutMs => "MESSAGE_TIMEOUT_MS",
        Setting::ClientId => "CLIENT_ID",
        Setting::ApiKey => "API_KEY",
        Setting::ApiSecret => "API_SECRET",
        Setting::LingerMs => "LINGER_MS",
        Setting::CompressionCodec => "COMPRESSION_CODEC",
        Setting::Topic => "TOPIC",
        Setting::SocketKeepaliveEnable => "SOCKET_KEEPALIVE_ENABLE",
        Setting::MetadataMaxAgeMs => "METADATA_MAX_AGE_MS",
        Setting::ConnectionsMaxIdleMs => "CONNECTIONS_MAX_IDLE_MS",
    }
}

/// The value of `setting` where the environment gives none.
pub fn default_value(setting: Setting) -> (value: &'static str)
    ensures
        value@ == default_text(setting),
{
    match setting {
        Setting::BootstrapServers => "localhost:9092",
        Setting::MessageTimeoutMs => "5000",
        Setting::ClientId => "ord-producer",
        Setting::ApiKey => "",
        Setting::ApiSecret => "",
        Setting::LingerMs => "200",
        Setting::CompressionCodec => "snappy",
        Setting::Topic => "ord",
        Setting::SocketKeepaliveEnable => "true",
        Setting::MetadataMaxAgeMs => "60000",
        Setting::ConnectionsMaxIdleMs => "180000",
    }
}

/// The value of `setting`: what was found, or the default.
fn resolve(setting: Setting, found: Option<String>) -> (value: String)
    ensures
        value@ == resolved(setting, found),
{
    match found {
        Some(value) => value,
        None => String::from_str(default_value(setting)),
    }
}

impl Environment {
    /// An environment in which no variable is set.
    pub fn empty() -> (environment: Self)
        ensures
            environment.bootstrap_servers is None,
            environment.message_timeout_ms is None,
            environment.client_id is None,
            environment.api_key is None,
            environment.api_secret is None,
            environment.linger_ms is None,
            environment.compression_codec is None,
            environment.topic is None,
            environment.socket_keepalive_enable is None,
            environment.metadata_max_age_ms is None,
            environment.connections_max_idle_ms is None,
    {
        Environment {
            bootstrap_servers: None,
            message_timeout_ms: None,
            client_id: None,
            api_key: None,
            api_secret: None,
            linger_ms: None,
            compression_codec: None,
            topic: None,
            socket_keepalive_enable: None,
            metadata_max_age_ms: None,
            connections_max_idle_ms: None,
        }
    }
}

impl ProducerSettings {
    /// The settings that `environment` gives: each value that was found, and
    /// the default for each that was not.
    pub fn from_environment(environment: Environment) -> (settings: Self)
        ensures
            settings.bootstrap_servers@ == resolved(
                Setting::BootstrapServers,
                environment.bootstrap_servers,
            ),
            settings.message_timeout_ms@ == resolved(
                Setting::MessageTimeoutMs,
                environment.message_timeout_ms,
            ),
            settings.client_id@ == resolved(Setting::ClientId, environment.client_id),
            settings.api_key@ == resolved(Setting::ApiKey, environment.api_key),
            settings.api_secret@ == resolved(Setting::ApiSecret, environment.api_secret),
            settings.linger_ms@ == resolved(Setting::LingerMs, environment.linger_ms),
            settings.compression_codec@ == resolved(
                Setting::CompressionCodec,
                environment.compression_codec,
            ),
            settings.topic@ == resolved(Setting::Topic, environment.topic),
            settings.socket_keepalive_enable@ == resolved(
                Setting::SocketKeepaliveEnable,
                environment.socket_keepalive_enable,
            ),
            settings.metadata_max_age_ms@ == resolved(
                Setting::MetadataMaxAgeMs,
                environment.metadata_max_age_ms,
            ),
            settings.connections_max_idle_ms@ == resolved(
                Setting::ConnectionsMaxIdleMs,
                environment.connections_max_idle_ms,
            ),
    {
        ProducerSettings {
            bootstrap_servers: resolve(Setting::BootstrapServers, environment.bootstrap_servers),
            message_timeout_ms: resolve(Setting::MessageTimeoutMs, environment.message_timeout_ms),
            client_id: resolve(Setting::ClientId, environment.client_id),
            api_key: resolve(Setting::ApiKey, environment.api_key),
            api_secret: resolve(Setting::ApiSecret, environment.api_secret),
            linger_ms: resolve(Setting::LingerMs, environment.linger_ms),
            compression_codec: resolve(Setting::CompressionCodec, environment.compression_codec),
            topic: resolve(Setting::Topic, environment.topic),
            socket_keepalive_enable: resolve(
                Setting::SocketKeepaliveEnable,
                environment.socket_keepalive_enable,
            ),
            metadata_max_age_ms: resolve(
                Setting::MetadataMaxAgeMs,
                environment.metadata_max_age_ms,
            ),
            connections_max_idle_ms: resolve(
                Setting::ConnectionsMaxIdleMs,
                environment.connections_max_idle_ms,
            ),
        }
    }

    /// What the client configuration of the producer holds: one entry for
    /// each setting but the topic, and the two that fix how the client
    /// signs in.
    pub open spec fn config_map(&self) -> Map<Seq<char>, Seq<char>> {
        Map::<Seq<char>, Seq<char>>::empty().insert(
            "bootstrap.servers"@,
            self.bootstrap_servers@,
        ).insert("message.timeout.ms"@, self.message_timeout_ms@).insert(
            "client.id"@,
            self.client_id@,
        ).insert("sasl.mechanisms"@, "PLAIN"@).insert("security.protocol"@, "SASL_SSL"@).insert(
            "sasl.username"@,
            self.api_key@,
        ).insert("sasl.password"@, self.api_secret@).insert("linger.ms"@, self.linger_ms@).insert(
            "compression.codec"@,
            self.compression_codec@,
        ).insert("socket.keepalive.enable"@, self.socket_keepalive_enable@).insert(
            "metadata.max.age.ms"@,
            self.metadata_max_age_ms@,
        ).insert("connections.max.idle.ms"@, self.connections_max_idle_ms@)
    }
}

} // verus!
