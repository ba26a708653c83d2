//! Factory Droid driver.
//!
//! `droid exec --input-format stream-jsonrpc --output-format stream-jsonrpc`
//! serves one newline-delimited JSON-RPC session per process. Waku spawns one
//! process per Waku session, drives it with `droid.*` requests, and adapts the
//! `droid.session_notification` event stream and the `droid.request_permission`
//! / `droid.ask_user` server requests to provider-neutral events.
//! Resuming a Waku session reconnects to the same Factory session through
//! `droid.load_session`, which keeps Factory's own session continuity intact.
//!
//! This crate decides and does not act. It plans the launch ([`session`]), reads and
//! writes the lines of the pipe ([`wire`]), and turns each command of the application
//! ([`command`]) and each message of the process ([`message`]) into the effects that the
//! application carries out ([`stream`]). The functions state what they return in terms of
//! what their arguments mean; what holds of a session as a whole is stated and proved in
//! [`laws`].

pub mod codec;
pub mod command;
pub mod json;
pub mod laws;
pub mod message;
pub mod model;
pub mod notification;
pub mod permission;
pub mod question;
pub mod reply;
pub mod session;
pub mod stderr;
pub mod stream;
pub mod table;
pub mod text;
pub mod views;
pub mod wire;
