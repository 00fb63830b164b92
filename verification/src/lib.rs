//! MeshRelay: the decision logic of an encrypted message relay.
//!
//! The relay stores and forwards end-to-end encrypted messages between users
//! and only ever handles ciphertext. This crate holds the relay's rules: its
//! configuration and peer trust, how each API request is validated and turned
//! into a storage action, how storage outcomes become API answers, and how
//! receipt timestamps are computed. The HTTP server and the SQLite storage that
//! carry these actions out live outside this library.

pub mod api;
pub mod clock;
pub mod config;
pub mod ids;
pub mod models;
pub mod store;
