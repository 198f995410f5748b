//! RPC capabilities.
//!
//! [`capnp`] holds the capability router driven over a two-party RPC
//! session.

pub mod capnp;
