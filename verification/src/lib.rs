//! Core logic of a cross-chain asset-transfer bridge: the wire codec for
//! cross-chain payloads, decimal-precision normalization of token amounts,
//! the foreign-emitter registry, the replay-protection ledger, and the
//! per-direction transfer orchestration.
//!
//! Host-runtime concerns (account wiring, token-ledger and messaging-network
//! calls) stay outside this crate; every function here computes over plain
//! values and carries a verified contract.

pub mod bridge;
pub mod cat_struct;
pub mod cat_struct_nft;
pub mod config;
pub mod constants;
pub mod error;
pub mod foreign_emitter;
pub mod nft;
pub mod received;
pub mod u256;
pub mod utils;
