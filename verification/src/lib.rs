//! Confidential weighted voting: the tally arithmetic and the poll lifecycle.

pub mod arguments;
pub mod errors;
pub mod private_governance;
pub mod private_voting;
pub mod state;
