//! Verified core of a secure chat system: configuration and key routing for
//! quantum key distribution (QKD), Noise transport sessions with timed
//! rekeying, and the chat server's console and delivery rules.
pub mod chat;
pub mod config;
pub mod error;
pub mod noise;
pub mod qkd;
pub mod registry;
pub mod rekey;
pub mod text;
