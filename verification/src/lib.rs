//! A keyword-triggered sound responder for a chat event stream.
//!
//! Each inbound message is flattened to one lowercase text, scanned against a
//! table of triggers, and answered with the sounds of the triggers that fired,
//! in table order. An editor maintains the table and submits it for an atomic
//! replace while the responder may already be running.

pub mod text;
pub mod word;
pub mod matcher;
pub mod extract;
pub mod table;
pub mod status;
pub mod responder;
pub mod style;
pub mod entry;
pub mod black_word;
pub mod board;
