//! A supervisor for the long-running helper processes of a desktop host: a
//! backend server and an optional tunnel that exposes it on a public URL.
//!
//! The crate holds the decisions — where a service's launch target lives, when
//! a start or stop request is admitted, what a slot reports, when a health
//! check gives up, which output line carries the tunnel's URL — as functions on
//! plain values. The host performs the outside work (probing the disk,
//! creating and killing processes, sleeping) and hands the outcomes back.

pub mod commands;
pub mod descriptor;
pub mod disk;
pub mod error;
pub mod health;
pub mod host;
pub mod launch;
pub mod laws;
pub mod locator;
pub mod path;
pub mod probes;
pub mod server;
pub mod slot;
pub mod text;
pub mod tunnel;
pub mod window;
