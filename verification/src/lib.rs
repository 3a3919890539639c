//! The economic-security layer of a relay network that carries transactions
//! into a settlement chain.
//!
//! Relay nodes post collateral with the [`relay_registry`], the stake
//! ledger: they register, stake, unstake after a lock period, and lose their
//! stake when they are slashed. When two nodes submit conflicting claims
//! about one transaction, the [`dispute_resolver`], the arbitration engine,
//! takes their proofs, rules for one of them within a deadline, and has the
//! loser slashed.
//!
//! Both components keep their records in a store of their own and are told
//! the time by their caller. Every operation either goes through or is
//! refused with an error and leaves everything as it was. What each
//! operation does is stated over mathematical models of the stores, and the
//! modules named `laws` prove what holds over every course of operations.

pub mod address;
pub mod dispute_resolver;
pub mod relay_registry;
pub mod table;
