//! Watches a vaccine-appointment dashboard and decides which alerts to send.
//!
//! The library holds the domain model, the decoder that checks a payload
//! against it, the availability filter, the message composer and the
//! state machine that sequences one poll cycle after another.
pub mod decode;
pub mod model;
pub mod notify;
pub mod scheduler;
