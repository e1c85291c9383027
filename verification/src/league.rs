//! The two top-level leagues and their conversions to and from the
//! API's numeric ids and the short textual codes "AL" and "NL".

use vstd::prelude::*;

use crate::error::MLBStatsError;
use crate::text::{
    dec_digits, eq_fold, fold_lower, lemma_fold_idempotent, lemma_fold_raise, raise_upper,
    u32_string,
};

verus! {

#[derive(Clone, Copy, PartialEq, Eq, Structural, Debug, Hash)]
pub enum MLBLeague {
    AL,
    NL,
}

/// The numeric id the API assigns to each league.
pub open spec fn league_id(l: MLBLeague) -> u32 {
    match l {
        MLBLeague::AL => 103,
        MLBLeague::NL => 104,
    }
}

/// The league a numeric id names, if any.
pub open spec fn league_from_id(id: u32) -> Option<MLBLeague> {
    if id == 103 {
        Some(MLBLeague::AL)
    } else if id == 104 {
        Some(MLBLeague::NL)
    } else {
        None
    }
}

/// The canonical (lowercase) short code of each league.
pub open spec fn league_code(l: MLBLeague) -> Seq<char> {
    match l {
        MLBLeague::AL => "al"@,
        MLBLeague::NL => "nl"@,
    }
}

/// The league a textual code names after ASCII case folding, if any.
pub open spec fn league_from_code(s: Seq<char>) -> Option<MLBLeague> {
    if fold_lower(s) == fold_lower("al"@) {
        Some(MLBLeague::AL)
    } else if fold_lower(s) == fold_lower("nl"@) {
        Some(MLBLeague::NL)
    } else {
        None
    }
}

impl MLBLeague {
    /// The numeric id of the league.
    pub fn id(&self) -> (r: u32)
        ensures
            r == league_id(*self),
    {
        match *self {
            MLBLeague::AL => 103,
            MLBLeague::NL => 104,
        }
    }

    /// Parses a short league code, case-insensitively.
    pub fn from_str(s: &str) -> (r: Result<Self, MLBStatsError>)
        ensures
            match league_from_code(s@) {
                Some(l) => r == Ok::<MLBLeague, MLBStatsError>(l),
                None => r matches Err(e) && e matches MLBStatsError::MLBLeagueConversionError(i)
                    && i@ == s@,
            },
    {
        if eq_fold(s, "al") {
            Ok(MLBLeague::AL)
        } else if eq_fold(s, "nl") {
            Ok(MLBLeague::NL)
        } else {
            Err(MLBStatsError::MLBLeagueConversionError(s.to_owned()))
        }
    }

    /// Converts a numeric id back to a league.
    pub fn try_from(value: u32) -> (r: Result<Self, MLBStatsError>)
        ensures
            match league_from_id(value) {
                Some(l) => r == Ok::<MLBLeague, MLBStatsError>(l),
                None => r matches Err(e) && e matches MLBStatsError::MLBConversionError(d, i)
                    && d@ == "MLBLeague"@ && i@ == dec_digits(value as int),
            },
    {
        match value {
            103 => Ok(MLBLeague::AL),
            104 => Ok(MLBLeague::NL),
            _ => Err(
                MLBStatsError::MLBConversionError("MLBLeague".to_owned(), u32_string(value)),
            ),
        }
    }
}

impl From<MLBLeague> for u32 {
    /// The numeric id of the league, as a plain integer.
    fn from(value: MLBLeague) -> (r: u32)
        ensures
            r == league_id(value),
    {
        match value {
            MLBLeague::AL => 103,
            MLBLeague::NL => 104,
        }
    }
}

impl vstd::std_specs::convert::FromSpecImpl<MLBLeague> for u32 {
    open spec fn obeys_from_spec() -> bool {
        true
    }

    open spec fn from_spec(t: MLBLeague) -> u32 {
        league_id(t)
    }
}

/// Law: the id of a league converts back to that league, and any
/// spelling of its code (after case folding) parses to that league.
pub proof fn lemma_league_round_trip(l: MLBLeague, s: Seq<char>)
    requires
        fold_lower(s) == fold_lower(league_code(l)),
    ensures
        league_from_id(league_id(l)) == Some(l),
        league_from_code(s) == Some(l),
{
    reveal_strlit("al");
    reveal_strlit("nl");
    assert(fold_lower("al"@)[0] == 'a');
    assert(fold_lower("nl"@)[0] == 'n');
}

/// Law: both the lowercase and the uppercase spelling of a league's
/// code parse back to that league.
pub proof fn lemma_league_code_cases(l: MLBLeague)
    ensures
        league_from_code(fold_lower(league_code(l))) == Some(l),
        league_from_code(raise_upper(league_code(l))) == Some(l),
{
    lemma_fold_idempotent(league_code(l));
    lemma_fold_raise(league_code(l));
    lemma_league_round_trip(l, fold_lower(league_code(l)));
    lemma_league_round_trip(l, raise_upper(league_code(l)));
}

} // verus!
