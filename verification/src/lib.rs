//! A verified reputation-accounting core.
//!
//! The library tracks a per-user signed karma score driven by scored social
//! activities, lets users stake collateral to earn a higher reward
//! multiplier, keeps a bounded newest-first journal of scored activities,
//! and converts karma into units of an external fungible asset at an
//! administrator-controlled rate.
//!
//! The core is a pure state machine: every operation is a function of the
//! current state and the operation's inputs, and either returns an error
//! with the state unchanged or commits its whole effect. The host ledger
//! around it (durable storage, caller-authorization proofs, the asset
//! transfer capability, and the clock) is an external collaborator: caller
//! authorization enters as a boolean verdict, timestamps enter as plain
//! integers, and each operation that moves the external asset reports the
//! transfer the host must perform.

pub mod engine;
pub mod laws;
pub mod model;
pub mod policy;
pub mod types;
