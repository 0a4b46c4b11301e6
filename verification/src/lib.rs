//! The minting contract of a Luna NFT collection: its owner whitelists token
//! ids for addresses, and a whitelisted address mints its tokens by paying a
//! per-token fee in `uluna`.

pub mod api;
pub mod contract;
pub mod decimal;
pub mod encode;
pub mod error;
pub mod laws;
pub mod msg;
pub mod response;
pub mod state;
