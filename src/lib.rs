//! On-chain governance core: a periodic clock that alternates posting and
//! voting windows, a proposal store, weighted vote tallies and conclusion
//! with a deposit refund.

pub mod contract;
pub mod error;
pub mod msg;
pub mod state;
