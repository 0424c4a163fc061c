//! Ingestion of syndication feeds into a structured record sink.
//!
//! The library resolves the enabled feed sources and their recency cutoffs
//! from the sink, normalizes heterogeneous publish timestamps to calendar
//! dates, filters fetched entries against each source's cutoff and against
//! the links already recorded in the sink, and plans the create-record calls
//! for the genuinely new entries. All network transport is left to the
//! caller; every decision the pipeline makes is specified and verified here.

pub mod config;
pub mod dates;
pub mod feed;
pub mod notion;
