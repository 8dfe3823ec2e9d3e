//! Verified node logic: hardfork overrides, receipt pruning and hashed state cursors.

pub mod external_types;
pub mod hardfork_overrides;
pub mod hardforks;
pub mod hashed_cursor;
pub mod hashed_cursor_laws;
pub mod prune_types;
pub mod receipts;
pub mod receipts_laws;
