//! Newsletter subscriptions: creating a pending subscriber, mailing a
//! confirmation link, and confirming the subscriber through the mailed token.
//!
//! * [`domain`] validates what a subscriber submits.
//! * [`token`] draws confirmation tokens.
//! * [`email_client`] prepares the request to the email provider and judges
//!   the provider's reply.
//! * [`store`] models the two tables and keeps them in memory.
//! * [`routes`] holds the two operations as state machines: each step
//!   decides what is to be done next, and the caller does it.
//! * [`workflow`] runs both machines against the in-memory store and proves
//!   what holds of every such run.
//! * [`errors`] and [`outcome`] say how failures are reported.

pub mod domain;
pub mod email_client;
pub mod errors;
pub mod outcome;
pub mod routes;
pub mod store;
pub mod token;
pub mod workflow;
