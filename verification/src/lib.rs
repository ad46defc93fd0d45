//! A verified model of an on-ledger escrow that performs a trust-minimized
//! token swap: an initiator locks tokens into a custody account controlled by
//! a deterministically derived authority, and a counterparty later claims them
//! through an atomic two-way transfer gated by a ledger-height window. A
//! small toggle program rides along as the minimal example of the same
//! account-and-instruction pattern.

pub mod authority;
pub mod codec;
pub mod errors;
pub mod escrow;
pub mod identity;
pub mod laws;
pub mod power;
