//! An append-only chain of blocks, each bound to its predecessor by a SHA-256
//! digest and secured by a proof-of-work nonce.

pub mod block;
pub mod canonical;
pub mod chain;
pub mod clock;
pub mod laws;
pub mod pow;
pub mod sha256;
pub mod text;

pub use block::Block;
pub use chain::Blockchain;
