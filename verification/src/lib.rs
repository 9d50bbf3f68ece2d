//! Connection addressing and socket-activated transport for the `enarx` tool.
//!
//! The crate holds the rules by which a client names the host that runs a
//! Keep, the table of descriptors that a supervisor hands to a socket-activated
//! service, and the answers of the `Info` and `Boot` calls. Every function is
//! stated over a mathematical model of its data and proved against it. One
//! thing is taken on trust: what the `url` crate makes of a text, which
//! [`host`] names and does not prove.

pub mod cmd;
pub mod config;
pub mod host;
pub mod listenfds;
pub mod proto;
pub mod run;
pub mod sdnotify;
pub mod serve;
pub mod text;
