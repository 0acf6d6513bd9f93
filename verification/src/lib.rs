//! A verified core for a small blockchain wallet gateway.
//!
//! The library turns typed wallet requests (balance query, wallet creation,
//! faucet airdrop, lamport transfer, and a demo "greet" program interaction)
//! into validated, correctly ordered ledger work. All node I/O is left to the
//! surrounding application; the library validates every input before any
//! side effect, builds and signs the transactions, and validates what the
//! node hands back.
pub mod chain;
pub mod cli;
pub mod codec;
pub mod error;
pub mod greet;
pub mod handlers;
pub mod keys;
pub mod network;
pub mod text;
