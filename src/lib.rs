//! Discovery and retrieval of examination papers from a remote catalog:
//! a grammar for listing rows, expansion of a sparse selection into
//! retrieval targets, and a bounded work pool for fetching them.

pub mod text;
pub mod configuration;
pub mod scraper;
pub mod config_gen;
pub mod pool;
pub mod download;
pub mod catalog;
