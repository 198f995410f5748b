//! Attaching to a target process.
//!
//! [`attacher`] holds the wake-up mechanisms; [`unix_socket`] the rendezvous
//! over a well-known local socket.

pub mod attacher;
pub mod unix_socket;
