//! A verified record-and-escrow service: user-authored profile records, a
//! paired lamport vault per profile held in program custody, and an
//! append-only history of incoming contributions ("likes").
//!
//! Sub-records live at addresses derived deterministically from typed seed
//! tuples, so every caller-supplied reference can be re-derived and checked
//! before any state changes. Balances move only through checked arithmetic,
//! withdrawals must leave a vault at or above its persistence floor, and
//! every operation either commits fully or fails with a typed error and no
//! state change.

pub mod addr;
pub mod errors;
pub mod events;
pub mod ledger;
pub mod registry;
pub mod state;
pub mod store;
