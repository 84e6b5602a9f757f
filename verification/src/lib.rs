//! A small chat-bot library: an ordered-fallback resolver over IP-lookup
//! providers, reply formatting for the looked-up record, configuration
//! loading with numeric overrides, and a model of the bounded graceful
//! shutdown race.

pub mod config;
pub mod record;
pub mod reply;
pub mod resolver;
pub mod shutdown;
