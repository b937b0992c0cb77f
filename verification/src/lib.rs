//! Per-(address, chain) daily check-in streak tracking.
//!
//! Each reported day-index updates a running streak counter, a historical
//! maximum, a lifetime count and cached profile metadata.  Records exist in
//! two key-aligned shapes: an older one and an extended one that is upgraded
//! to lazily on first access, while the older shape keeps being written for
//! readers that only know it.

pub mod api;
pub mod key;
pub mod laws;
pub mod records;
pub mod store;
pub mod streak;

pub use api::{create_gm_stats, find_gm_stats, report_gm, update_gm_stats};
pub use key::pk_for;
pub use records::{GmStatsByAddress, GmStatsByAddressV2};
pub use store::GmDb;
