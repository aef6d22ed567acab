//! A client for the event channel of an upstream event-distribution service,
//! and the rules of the services built on it.
//!
//! The channel: its configuration ([`channel`]), the dispatcher that bounds
//! the handlers running at once ([`dispatch`]), the work of one event
//! ([`task`], [`api`]), the acknowledgments that go back ([`ack`]), and the
//! loop that reconnects ([`supervisor`]). Beside it stand the requests of the
//! upstream service's HTTP interface ([`client`]), the rules by which the
//! workers apply events to their store ([`ingest`], [`lesgif`]), and the
//! rules of the media gateway ([`gateway`]) and of the read interface
//! ([`appview`]).
//!
//! Nothing here touches a socket, a clock or a store. Every function takes
//! what happened as a value and answers with what to do next.

pub mod ack;
pub mod api;
pub mod appview;
pub mod auth;
pub mod channel;
pub mod client;
pub mod datetime;
pub mod decimal;
pub mod dispatch;
pub mod endpoint;
pub mod gateway;
pub mod ident;
pub mod identity;
pub mod ingest;
pub mod lesgif;
pub mod supervisor;
pub mod task;
pub mod text;
