//! Verified core of a small HTTP service that sits in front of a relational
//! database.
//!
//! The crate holds every decision the service makes, as functions from plain
//! values to plain values with proved contracts: how the environment becomes a
//! configuration, in which order the process starts up and when it gives up,
//! which endpoints exist, and what each endpoint answers. Sockets, database
//! connections and the asynchronous runtime live in the binary that links
//! this crate; it performs the actions named here and reports how they went.
//! The one thing this crate takes from the database driver is its option
//! builder, which [`database::connect_options`] fills in.

pub mod config;
pub mod database;
pub mod routes;
pub mod startup;
