//! Watches a calendar for a recurring meeting and reminds a chat channel
//! about it at most once per day, rendering the current shared agenda.
//!
//! The crate holds the verified core: the agenda document and its
//! mutations, the poll-tick state machine with its once-per-day
//! deduplication, the event fan-out queues, and the request and message
//! rendering. Network, disk and chat transport live outside, in the
//! surrounding application, which hands plain values in and out.

pub mod agenda;
pub mod calendar;
pub mod dates;
pub mod discord;
pub mod error;
pub mod events;
pub mod kodapa;
pub mod model;
pub mod text;

pub use agenda::Agenda;
pub use agenda::AgendaPoint;
