//! Client-side core of a secured, framed TCP protocol.
//!
//! The crate holds the decisions of a client session: who may use the session
//! cipher and when, what a time limit that ran out means, and which failure is
//! reported to the caller. Connecting, reading and writing are left to the
//! program around it, which performs what these functions ask for and hands
//! back what happened.
//!
//! A client that keeps the cipher itself uses [`mutable_cipher`],
//! [`client_base`], [`network`] and the limits of [`configuration`]. A client
//! whose stream handler keeps the cipher uses [`errors`] and the limits of
//! [`config`]. Both read and write flags and names through [`buffer`].

pub mod buffer;
pub mod client_base;
pub mod config;
pub mod configuration;
pub mod errors;
pub mod mutable_cipher;
pub mod network;
