//! A relay for sale records: it takes one record in, hands it unchanged to a
//! downstream service, and turns the outcome of that call into the answer for
//! the caller.
//!
//! The library holds the decisions. Listening, decoding, sending and logging
//! are left to the program that hosts it.

pub mod config;
pub mod record;
pub mod relay;
