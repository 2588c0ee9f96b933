//! Verified core of a sandbox debug-console attach client.
//!
//! The library resolves a user-supplied pod identifier (or unique prefix) to a
//! control socket, drives the `CONNECT`/`OK` text handshake that opens a
//! logical channel to a numbered in-sandbox service, and models the duplex
//! byte relay, terminal raw-mode lifecycle, and graceful-shutdown decisions
//! of an attach session.  All I/O is performed by callers, which hand the
//! library plain values (directory listings, bytes read, events observed) and
//! carry out the actions it decides on.

pub mod args;
pub mod command;
pub mod error;
pub mod handshake;
pub mod interactive;
pub mod relay;
pub mod resolve;
pub mod sandbox;
pub mod strutil;
pub mod terminal;
pub mod watchdog;
