//! Core of a dual-role chat node.
//!
//! A node either listens for peers (server role) and relays text between
//! them, or dials out to one such listener (client role). This crate holds
//! the verified core: the connection supervisor (the state machine deciding
//! the node's role), the session registry and relay fan-out, the latency
//! probe sub-protocol and its wire codec, and the console command grammar.
//! Socket transport, terminal rendering and argument parsing are left to the
//! surrounding program.

pub mod codec;
pub mod command;
pub mod probe;
pub mod registry;
pub mod relay;
pub mod supervisor;
pub mod text;
pub mod ui;
