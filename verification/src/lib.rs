//! Event emission pipeline of a blockchain indexer: the events, their
//! partition keys and wire payloads, the bounded hand-off queue, and the
//! dispatcher that publishes to a message broker.

pub mod format;
pub mod text;
pub mod ids;
pub mod event;
pub mod key;
pub mod payload;
pub mod fields;
pub mod lists;
pub mod decode;
pub mod roundtrip;
pub mod channel;
pub mod dispatcher;
pub mod settings;
pub mod stream;
