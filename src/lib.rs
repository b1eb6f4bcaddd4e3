//! Capability-typed sockets over a reliable UDP-based streaming transport engine.

pub mod builder;
pub mod error;
pub mod event;
pub mod poll;
pub mod socket;
