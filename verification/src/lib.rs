//! A deposit pool: users pay lamports into a pool account and receive the
//! same number of pool tokens, and later hand those tokens back to take the
//! lamports out again.
//!
//! The library holds the pool's decisions: the pool account's data and how it
//! is loaded and stored, the programs each instruction registers, the
//! cross-program calls each handler makes and in what order, the lamport
//! arithmetic of a withdrawal, and the seeds the pool signs with. The runtime
//! side (accounts, cross-program invocation, logging) stands outside it.

pub mod handlers;
pub mod ledger;
pub mod pool;
pub mod program;
pub mod seahorse_util;

