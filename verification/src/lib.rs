//! Ingestion core for GELF log messages: decoding inbound frames, tagging each
//! message with a correlation key and its source address, and preparing the
//! keyed record that is handed to the message broker.

pub mod enrich;
pub mod gelf;
pub mod json;
pub mod listener;
pub mod message;
pub mod publish;
pub mod text;
