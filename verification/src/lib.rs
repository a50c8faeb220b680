//! A mailing list with double opt-in: people subscribe and confirm by a link
//! that is mailed to them, and a user who authenticates can have a message
//! delivered to everyone who confirmed.
//!
//! The library holds the rules and is verified. `domain` and `auth` read what
//! comes from outside; `routes` holds the services, each as a machine that
//! says what to ask of the store and of the e-mail service and takes their
//! answers; `store` states what the services assume of the store;
//! `simulation` runs the services against a store and an e-mail service in
//! memory; `laws` states what then holds.

pub mod auth;
pub mod config;
pub mod domain;
pub mod email_client;
pub mod http;
pub mod laws;
pub mod routes;
pub mod simulation;
pub mod startup;
pub mod store;
pub mod text;
