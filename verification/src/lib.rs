//! A contest escrow and resolution engine.
//!
//! Contests accumulate entry fees into a per-contest pool and pay that pool
//! out to a fixed set of winners, minus a platform fee, exactly once.  An
//! access registry gates who may create and resolve contests.  All balances
//! are plain integer amounts; the host environment that actually holds the
//! funds hands them in and out as such.

pub mod error;
pub mod state;
pub mod registry;
pub mod catalog;
pub mod contest;
pub mod resolution;
