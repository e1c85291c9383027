//! The stat vocabularies and the leaders response.

pub mod stats_leaders;
pub mod types;
