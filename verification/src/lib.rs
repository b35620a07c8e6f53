//! A directory retention engine: an age-based expiration sweep with
//! type-whitelisting rules, and correlation of raw filesystem-event paths
//! to concrete file records.
//!
//! The surrounding binary does the actual I/O (directory listing, file
//! deletion, event subscription, notification display); this crate holds
//! every decision those loops make, with contracts.

pub mod cleaner;
pub mod config;
pub mod correlate;
pub mod listing;
pub mod record;
pub mod strutil;
pub mod watcher;

use vstd::prelude::*;

verus! {

} // verus!
