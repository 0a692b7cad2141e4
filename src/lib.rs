//! Turns the outcome of executing one dispatch against one program into the
//! ordered journal of state changes that the ledger applies.

pub mod ids;
pub mod message;
pub mod journal;
pub mod error;
pub mod processing;
pub mod laws;
pub mod database;
pub mod db_sync;
pub mod sequencer;
pub mod schedule;
