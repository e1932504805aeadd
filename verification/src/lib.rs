//! Bindings to the Telegram bot API with a verified update-ingestion engine.
//!
//! The engine turns the request/response `getUpdates` long poll into one
//! ordered, resumable stream of events: it tracks the cursor of the next
//! event to ask for, decides what to do with every outcome of a poll attempt
//! and hands buffered events to the consumer one at a time. Its rules are
//! stated over mathematical models and proved; the transport that performs
//! the polls lives outside this crate.

/// What the client computes before and after it talks to the API
pub mod client;

/// Events and the cursor that marks which of them were acknowledged.
pub mod cursor;

/// Errors definitions
pub mod error;

/// Outcomes of one poll attempt and the errors surfaced to the consumer.
pub mod outcome;

/// Telegram bot api responses
pub mod responses;

/// The retry policy: what follows each outcome of an attempt, and after how long.
pub mod retry;

/// The buffer between a delivered batch and the consumer.
pub mod buffer;

/// Requests for the client. Each request struct represent some method telegram bot api
pub mod requests;

/// The stream controller that turns polls into one stream of updates.
pub mod updates_pool_stream;

/// What holds of every stream: the laws of the controller, proved of its
/// transition function.
pub mod guarantees;
