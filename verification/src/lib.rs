//! Typed messages for a publish/subscribe transport.
//!
//! A message type describes its wire format with a [`DataTypeInfo`] and
//! implements [`PublisherMessage`], [`SubscriberMessage`] or both.
//! [`StringMessage`] is the message type for UTF-8 text. [`configuration`]
//! holds the decisions that are taken while a native configuration object is
//! brought up.

pub mod configuration;
pub mod string_message;
pub mod typed_publisher;
pub mod typed_subscriber;
pub mod types;

pub use configuration::ConfigError;
pub use string_message::StringMessage;
pub use typed_publisher::PublisherMessage;
pub use typed_subscriber::SubscriberMessage;
pub use types::DataTypeInfo;
