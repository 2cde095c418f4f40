//! Departure board core: the JSON tree that the transit API hands back, the
//! pipeline that turns it into display rows, and the refresh scheduler that
//! decides when to fetch.
pub mod config;
pub mod json;
pub mod laws;
pub mod text;
pub mod timing;
pub mod pipeline;
pub mod refresh;
