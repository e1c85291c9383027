//! A typed client core for a public baseball-statistics web API.
//!
//! The crate models the API's closed vocabularies (leagues, divisions,
//! teams, stat categories, game types), builds request URLs with their
//! query strings, and holds the passive response records together with
//! the small derived computations on them (flattening a schedule,
//! rendering a score, extracting table rows).  The HTTP transport and
//! the JSON decoding sit outside this crate; everything here is plain
//! data in, plain data out, with contracts proved by Verus.

pub mod client;
pub mod commands;
pub mod dates;
pub mod display;
pub mod division;
pub mod encode;
pub mod error;
pub mod linescore;
pub mod params;
pub mod players;
pub mod games;
pub mod plays;
pub mod schedule;
pub mod standings;
pub mod stats;
pub mod league;
pub mod teams;
pub mod text;
pub mod types;
