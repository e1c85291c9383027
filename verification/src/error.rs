//! Error taxonomy of the library.  Conversion failures carry the domain
//! and the offending input; transport and decoding failures belong to
//! the unverified shell around the library and are not represented here.

use vstd::prelude::*;

verus! {

/// An error raised by the library itself: some input fell outside one
/// of the closed vocabularies.
#[derive(Debug)]
pub enum MLBStatsError {
    /// A numeric id did not name any of the thirty teams.
    MLBTeamConversionError,
    /// A code or id did not belong to the named domain; carries the
    /// domain and the rejected input.
    MLBConversionError(String, String),
    /// A textual code did not name a league; carries the rejected input.
    MLBLeagueConversionError(String),
}

impl MLBStatsError {
    /// A short human-readable account of the error.
    pub fn message(&self) -> (r: String)
        ensures
            match self {
                MLBStatsError::MLBTeamConversionError => r@ == "failed to convert MLBTeam"@,
                MLBStatsError::MLBConversionError(d, i) => r@ == "failed to convert "@ + d@ + ": "@
                    + i@ + " is not a "@ + d@,
                MLBStatsError::MLBLeagueConversionError(i) => r@ == "failed to convert league: "@
                    + i@ + " is not a league"@,
            },
    {
        match self {
            MLBStatsError::MLBTeamConversionError => "failed to convert MLBTeam".to_owned(),
            MLBStatsError::MLBConversionError(d, i) => {
                let mut s = "failed to convert ".to_owned();
                s.append(d.as_str());
                s.append(": ");
                s.append(i.as_str());
                s.append(" is not a ");
                s.append(d.as_str());
                s
            },
            MLBStatsError::MLBLeagueConversionError(i) => {
                let mut s = "failed to convert league: ".to_owned();
                s.append(i.as_str());
                s.append(" is not a league");
                s
            },
        }
    }
}

/// An error raised at the command boundary: a bad argument, a date in
/// neither accepted format, or a library error carried upward.
#[derive(Debug)]
pub enum CLIError {
    /// The command name was not recognised.
    CommandConversionFailed,
    /// Two arguments contradict each other; carries the account.
    InvalidArgCombination(String),
    /// An argument could not be converted; carries the argument's name.
    ArgConversionFailed(String),
    /// An error of the library, carried upward unchanged.
    MLBStatsError(MLBStatsError),
    /// The date matched neither `YYYY-MM-DD` nor `MM-DD-YYYY`.
    DateParseError,
}

impl CLIError {
    /// A short human-readable account of the error.
    pub fn message(&self) -> (r: String)
        ensures
            match self {
                CLIError::CommandConversionFailed => r@ == "command conversion failed"@,
                CLIError::InvalidArgCombination(a) => r@ == "invalid arg combination: "@ + a@,
                CLIError::ArgConversionFailed(a) => r@ == "failed to convert arg: "@ + a@,
                CLIError::MLBStatsError(_) => r@ == "mlbstats error occurred"@,
                CLIError::DateParseError => r@ == "failed to parse date, use YYYY-MM-DD format"@,
            },
    {
        match self {
            CLIError::CommandConversionFailed => "command conversion failed".to_owned(),
            CLIError::InvalidArgCombination(a) => {
                let mut s = "invalid arg combination: ".to_owned();
                s.append(a.as_str());
                s
            },
            CLIError::ArgConversionFailed(a) => {
                let mut s = "failed to convert arg: ".to_owned();
                s.append(a.as_str());
                s
            },
            CLIError::MLBStatsError(_) => "mlbstats error occurred".to_owned(),
            CLIError::DateParseError => "failed to parse date, use YYYY-MM-DD format".to_owned(),
        }
    }
}

} // verus!
