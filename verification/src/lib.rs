//! Core logic of a Solana launch watcher: configuration validation, candidate
//! qualification, watcher bookkeeping and the text helpers they share.

pub mod text;
pub mod errors;
pub mod config;
pub mod network;
pub mod decoder;
pub mod clock;
pub mod qualifier;
pub mod watcher;
pub mod wallet;
pub mod state;
