//! What holds of the driver as a whole.

pub mod access;
pub mod asking;
pub mod commands;
pub mod envelopes;
pub mod meanings;
pub mod messages;
pub mod notifications;
pub mod opening;
pub mod requests;
pub mod runs;
pub mod start;
pub mod tables;
pub mod tail;
pub mod texts;
pub mod turns;
pub mod values;
