//! Canteen meal reporting: date normalization, canteen resolution,
//! per-canteen meal report rendering, and table formatting.
//!
//! The pipeline turns a user selection (an explicit canteen id, a free-text
//! location, or a configured default list) and a date token into an ordered
//! sequence of rendered report sections, one per canteen, failing fast on
//! the first fetch error.

pub mod date;
pub mod resolve;
pub mod report;
pub mod table;
