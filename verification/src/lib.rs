//! Admission-control core: decides whether a proposed unit of work may
//! proceed against two shared budgets (a maximum transaction count and a
//! maximum cumulative amount), reserves capacity before execution, and
//! rolls the reservation back when execution fails.

pub mod env_utils;
pub mod limits;
pub mod results;
pub mod tx;
pub mod tx_generator;
