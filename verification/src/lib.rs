//! A search-and-fetch pipeline library: budgeted text truncation,
//! provider paging arithmetic, fetch-outcome classification, ordered
//! aggregation of per-page results, and plain-text report rendering.

pub mod pipeline;
pub mod report;
pub mod results;
pub mod text;
