//! L1 origin lookup and prefetching for a rollup sequencer.

pub mod config;
pub mod header;
pub mod laws;
pub mod origin;
pub mod prefetched_chain_provider;
pub mod primitives;
pub mod provider;
pub mod receipt;
pub mod transport;
