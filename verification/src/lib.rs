//! A minimal hash-linked ledger: blocks sealed with SHA-256, pluggable mining
//! strategies, and a chain that appends mined blocks and checks its own links.

pub mod block;
pub mod blockchain;
mod clock;
pub mod digest;
pub mod encoding;
pub mod mining;
