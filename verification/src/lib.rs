//! Mithaq: escrow commitments for trade, work and credit, with reputation
//! tiers, a hybrid liquidity pool and dispute arbitration.
//!
//! The library holds the whole contract state as plain values and decides
//! every entry point; what the contract asks the outside world to do (token
//! transfers, fee distribution, certificates, events) comes back as a list of
//! actions.
pub mod bytes;
pub mod party;
pub mod tag;
pub mod types;
pub mod events;
pub mod rules;
pub mod certificate;
pub mod state;
pub mod contract;
pub mod lifecycle;
pub mod settlement;
pub mod disputes;
pub mod schedules;
pub mod laws;
