//! Covert client authentication hidden in the random field of a TLS 1.3
//! ClientHello, and the routing of unauthenticated connections to a decoy
//! upstream.

pub mod config;
pub mod upstream;
pub mod handshake;
