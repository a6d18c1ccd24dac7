//! Discovery of free closed-compartment seat blocks on a passenger-rail
//! booking backend, driven by a multi-turn conversation.
//!
//! The crate is organised leaf to root:
//! - [`text`]: verified character-level helpers (digit parsing and
//!   formatting, splitting, trimming) that the other modules build on;
//! - [`errors`]: the error kinds every component reports;
//! - [`json`]: thin trusted accessors over the JSON documents the
//!   upstream backend answers with;
//! - [`rzd`]: the typed shapes of upstream answers and their decoders;
//! - [`protocol`]: the submit/poll/retry state machine shared by all
//!   upstream queries;
//! - [`reducer`]: the pure reduction of per-car seat-range tokens to
//!   four-seat compartment blocks;
//! - [`date`]: travel dates as plain day/month/year values;
//! - [`tasks`]: the standing poll subscriptions and their token codec;
//! - [`conversation`]: the finite-state machine that sequences the
//!   dialogue.

pub mod conversation;
pub mod date;
pub mod errors;
pub mod json;
pub mod protocol;
pub mod queries;
pub mod reducer;
pub mod rzd;
pub mod tasks;
pub mod text;
