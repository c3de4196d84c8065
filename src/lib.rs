//! State access at a pinned block height of a remote Ethereum node, with a
//! memoizing cache whose entries are kept only for heights that can no longer
//! be reorganized.
pub mod account;
pub mod cached;
pub mod config;
pub mod error;
pub mod primitives;
pub mod remote;
