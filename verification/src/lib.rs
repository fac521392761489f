//! Core of a PBFT-family consensus engine for a single block height:
//! views and validator sets, the wire codec for gossip messages, per-phase
//! vote collection with quorum detection, and the three-phase state machine
//! (Pre-Prepare, Prepare, Commit) with locking and round changes.
//!
//! The engine is a pure decision core: cryptographic signing and recovery,
//! networking and timers live outside. Handlers take the outcome of
//! signature recovery as an argument and return the actions (broadcasts,
//! timer arms, finalization) that the caller must perform.

pub mod codec;
pub mod config;
pub mod engine;
pub mod errors;
pub mod laws;
pub mod msgset;
pub mod transaction;
pub mod types;
pub mod validator;
pub mod wire;
