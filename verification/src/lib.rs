//! A duplex streaming transport that is driven from outside.
//!
//! The transport turns a lazy sequence of raw byte chunks into frames on a
//! persistent socket and the frames that come back into decoded results. The
//! socket, the timers and the two tasks belong to the caller. This crate holds
//! every decision between them: when to retry a connection and when to give up,
//! which frame goes out for which event, which inbound frame becomes a result
//! and which one ends the sequence.
//!
//! Each part is a small state machine. The caller performs the action that a
//! step answers with and reports what came of it as the next event.
//!
//! - [`client`] holds the endpoint and begins a streaming operation;
//! - [`connect`] retries the connection, with delays from [`retry`];
//! - [`session`] splits an established session into its two halves;
//! - [`sender`] and [`receiver`] are the loops of the two halves, over the
//!   application's [`codec`], the frames of [`message`] and the errors of
//!   [`error`];
//! - [`connect_runs`], [`sender_runs`] and [`receiver_runs`] state what holds
//!   of whole runs of these machines.
//!
//! Around the transport stands what uses it to record meetings: [`routine`]
//! decides what happens when a meeting of [`meeting`] is detected, starts or
//! ends, with the texts of [`notification`]; [`upcoming`] makes the meetings
//! of the next day; [`windows`] holds the errors of window handling.

pub mod client;
pub mod codec;
pub mod connect;
pub mod connect_runs;
pub mod error;
pub mod meeting;
pub mod message;
pub mod notification;
pub mod receiver;
pub mod receiver_runs;
pub mod retry;
pub mod routine;
pub mod sender;
pub mod sender_runs;
pub mod session;
pub mod upcoming;
pub mod windows;
