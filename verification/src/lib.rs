//! Burn-to-mint accounting: the ratio schedule, the configuration record and
//! the operations that change it, each with a proved contract.

pub mod contract;
pub mod encode;
pub mod error;
pub mod laws;
pub mod msg;
pub mod outcome;
pub mod ratio;
pub mod response;
pub mod state;
