//! A custodial vault: per-owner custody records bound to a program-derived
//! authority, fee arithmetic, and the decisions behind the delegated swap,
//! gas funding and fee-proceeds settlement operations.

pub mod authority;
pub mod error;
pub mod fees;
pub mod instructions;
pub mod state;
