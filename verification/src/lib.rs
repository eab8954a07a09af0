//! A shielded-value pool: public funds are shielded into per-owner accounts,
//! moved between them, and unshielded again, under fee-conserving arithmetic
//! and exactly-once spend authorisations.
//!
//! The library decides and computes; it moves no funds and reads no clock.
//! Whoever runs it hands each operation the records it works on and the
//! current slot, and carries out what the operation's answer says: an event
//! names the amount that has to enter or leave the vault. An operation that
//! is refused has changed nothing.
//!
//! - `state`: the pool's record, the accounts, and the two registries;
//! - `fee`: the split of an amount into fee and remainder;
//! - `instructions`: the pool's operations;
//! - `crypto`, `utils`: proof screening, hash commitments, and the balance
//!   blobs;
//! - `token`: the wrapped token that stands for shielded value;
//! - `bytes`: byte strings of fixed width;
//! - `error`: why an operation is refused.

pub mod bytes;
pub mod crypto;
pub mod error;
pub mod fee;
pub mod instructions;
pub mod state;
pub mod token;
pub mod utils;
