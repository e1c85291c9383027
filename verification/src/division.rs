//! The six divisions, three per league, with their numeric ids, full
//! and short display names, and three-letter codes such as "ALW".

use vstd::prelude::*;

use crate::error::MLBStatsError;
use crate::text::{
    dec_digits, eq_fold, fold_lower, lemma_fold_idempotent, lemma_fold_raise, raise_upper,
    u32_string,
};

verus! {

/// A passive record of one division as the API reports it.
#[derive(Debug, PartialEq)]
pub struct Division {
    /// Unique id for the division
    pub id: u32,
    /// Name of division (e.g. American League West)
    pub name: String,
    /// Season year
    pub season: String,
    /// Shortened name (e.g. AL West)
    pub name_short: String,
    /// Abbreviation of division (e.g. ALW)
    pub abbreviation: String,
}

/// The list of divisions the API returns.
#[derive(Debug, PartialEq)]
pub struct DivisionsResponse {
    pub divisions: Vec<Division>,
}

#[derive(Clone, Copy, PartialEq, Eq, Structural, Debug, Hash)]
pub enum MLBDivision {
    ALCentral,
    ALEast,
    ALWest,
    NLCentral,
    NLEast,
    NLWest,
}

/// The numeric id the API assigns to each division.
pub open spec fn division_id(d: MLBDivision) -> u32 {
    match d {
        MLBDivision::ALCentral => 202,
        MLBDivision::ALEast => 201,
        MLBDivision::ALWest => 200,
        MLBDivision::NLCentral => 205,
        MLBDivision::NLEast => 204,
        MLBDivision::NLWest => 203,
    }
}

/// The division a numeric id names, if any.
pub open spec fn division_from_id(id: u32) -> Option<MLBDivision> {
    if id == 200 {
        Some(MLBDivision::ALWest)
    } else if id == 201 {
        Some(MLBDivision::ALEast)
    } else if id == 202 {
        Some(MLBDivision::ALCentral)
    } else if id == 203 {
        Some(MLBDivision::NLWest)
    } else if id == 204 {
        Some(MLBDivision::NLEast)
    } else if id == 205 {
        Some(MLBDivision::NLCentral)
    } else {
        None
    }
}

/// The canonical (lowercase) three-letter code of each division.
pub open spec fn division_code(d: MLBDivision) -> Seq<char> {
    match d {
        MLBDivision::ALCentral => "alc"@,
        MLBDivision::ALEast => "ale"@,
        MLBDivision::ALWest => "alw"@,
        MLBDivision::NLCentral => "nlc"@,
        MLBDivision::NLEast => "nle"@,
        MLBDivision::NLWest => "nlw"@,
    }
}

/// The division a textual code names after ASCII case folding, if any.
pub open spec fn division_from_code(s: Seq<char>) -> Option<MLBDivision> {
    if fold_lower(s) == fold_lower("alc"@) {
        Some(MLBDivision::ALCentral)
    } else if fold_lower(s) == fold_lower("ale"@) {
        Some(MLBDivision::ALEast)
    } else if fold_lower(s) == fold_lower("alw"@) {
        Some(MLBDivision::ALWest)
    } else if fold_lower(s) == fold_lower("nlc"@) {
        Some(MLBDivision::NLCentral)
    } else if fold_lower(s) == fold_lower("nle"@) {
        Some(MLBDivision::NLEast)
    } else if fold_lower(s) == fold_lower("nlw"@) {
        Some(MLBDivision::NLWest)
    } else {
        None
    }
}

/// The full display name of each division.
pub open spec fn division_name(d: MLBDivision) -> Seq<char> {
    match d {
        MLBDivision::ALCentral => "American League Central"@,
        MLBDivision::ALEast => "American League East"@,
        MLBDivision::ALWest => "American League West"@,
        MLBDivision::NLCentral => "National League Central"@,
        MLBDivision::NLEast => "National League East"@,
        MLBDivision::NLWest => "National League West"@,
    }
}

/// The short display name of each division.
pub open spec fn division_short_name(d: MLBDivision) -> Seq<char> {
    match d {
        MLBDivision::ALCentral => "AL Central"@,
        MLBDivision::ALEast => "AL East"@,
        MLBDivision::ALWest => "AL West"@,
        MLBDivision::NLCentral => "NL Central"@,
        MLBDivision::NLEast => "NL East"@,
        MLBDivision::NLWest => "NL West"@,
    }
}

impl MLBDivision {
    /// Returns the identifier of the division.
    pub fn id(&self) -> (r: u32)
        ensures
            r == division_id(*self),
    {
        match self {
            MLBDivision::ALCentral => 202,
            MLBDivision::ALEast => 201,
            MLBDivision::ALWest => 200,
            MLBDivision::NLCentral => 205,
            MLBDivision::NLEast => 204,
            MLBDivision::NLWest => 203,
        }
    }

    /// Returns the full name of the division (e.g. American League West).
    pub fn name(&self) -> (r: String)
        ensures
            r@ == division_name(*self),
    {
        match self {
            MLBDivision::ALCentral => "American League Central".to_owned(),
            MLBDivision::ALEast => "American League East".to_owned(),
            MLBDivision::ALWest => "American League West".to_owned(),
            MLBDivision::NLCentral => "National League Central".to_owned(),
            MLBDivision::NLEast => "National League East".to_owned(),
            MLBDivision::NLWest => "National League West".to_owned(),
        }
    }

    /// Returns the short name of the division (e.g. AL West).
    pub fn short_name(&self) -> (r: String)
        ensures
            r@ == division_short_name(*self),
    {
        match self {
            MLBDivision::ALCentral => "AL Central".to_owned(),
            MLBDivision::ALEast => "AL East".to_owned(),
            MLBDivision::ALWest => "AL West".to_owned(),
            MLBDivision::NLCentral => "NL Central".to_owned(),
            MLBDivision::NLEast => "NL East".to_owned(),
            MLBDivision::NLWest => "NL West".to_owned(),
        }
    }

    /// Parses a three-letter division code, case-insensitively.
    pub fn from_str(s: &str) -> (r: Result<Self, MLBStatsError>)
        ensures
            match division_from_code(s@) {
                Some(d) => r == Ok::<MLBDivision, MLBStatsError>(d),
                None => r matches Err(e) && e matches MLBStatsError::MLBConversionError(dom, i)
                    && dom@ == "division"@ && i@ == s@,
            },
    {
        if eq_fold(s, "alc") {
            Ok(MLBDivision::ALCentral)
        } else if eq_fold(s, "ale") {
            Ok(MLBDivision::ALEast)
        } else if eq_fold(s, "alw") {
            Ok(MLBDivision::ALWest)
        } else if eq_fold(s, "nlc") {
            Ok(MLBDivision::NLCentral)
        } else if eq_fold(s, "nle") {
            Ok(MLBDivision::NLEast)
        } else if eq_fold(s, "nlw") {
            Ok(MLBDivision::NLWest)
        } else {
            Err(MLBStatsError::MLBConversionError("division".to_owned(), s.to_owned()))
        }
    }

    /// Converts a numeric id back to a division.
    pub fn try_from(value: u32) -> (r: Result<Self, MLBStatsError>)
        ensures
            match division_from_id(value) {
                Some(d) => r == Ok::<MLBDivision, MLBStatsError>(d),
                None => r matches Err(e) && e matches MLBStatsError::MLBConversionError(dom, i)
                    && dom@ == "league"@ && i@ == dec_digits(value as int),
            },
    {
        match value {
            200 => Ok(MLBDivision::ALWest),
            201 => Ok(MLBDivision::ALEast),
            202 => Ok(MLBDivision::ALCentral),
            203 => Ok(MLBDivision::NLWest),
            204 => Ok(MLBDivision::NLEast),
            205 => Ok(MLBDivision::NLCentral),
            _ => Err(MLBStatsError::MLBConversionError("league".to_owned(), u32_string(value))),
        }
    }
}

impl From<MLBDivision> for u32 {
    /// The numeric id of the division, as a plain integer.
    fn from(value: MLBDivision) -> (r: u32)
        ensures
            r == division_id(value),
    {
        match value {
            MLBDivision::ALCentral => 202,
            MLBDivision::ALEast => 201,
            MLBDivision::ALWest => 200,
            MLBDivision::NLCentral => 205,
            MLBDivision::NLEast => 204,
            MLBDivision::NLWest => 203,
        }
    }
}

impl vstd::std_specs::convert::FromSpecImpl<MLBDivision> for u32 {
    open spec fn obeys_from_spec() -> bool {
        true
    }

    open spec fn from_spec(t: MLBDivision) -> u32 {
        division_id(t)
    }
}

/// Law: the id of a division converts back to that division, and any
/// spelling of its code (after case folding) parses to that division.
pub proof fn lemma_division_round_trip(d: MLBDivision, s: Seq<char>)
    requires
        fold_lower(s) == fold_lower(division_code(d)),
    ensures
        division_from_id(division_id(d)) == Some(d),
        division_from_code(s) == Some(d),
{
    reveal_strlit("alc");
    reveal_strlit("ale");
    reveal_strlit("alw");
    reveal_strlit("nlc");
    reveal_strlit("nle");
    reveal_strlit("nlw");
    assert(fold_lower("alc"@) =~= "alc"@);
    assert(fold_lower("ale"@) =~= "ale"@);
    assert(fold_lower("alw"@) =~= "alw"@);
    assert(fold_lower("nlc"@) =~= "nlc"@);
    assert(fold_lower("nle"@) =~= "nle"@);
    assert("alc"@[0] == 'a' && "alc"@[1] == 'l' && "alc"@[2] == 'c');
    assert("ale"@[0] == 'a' && "ale"@[1] == 'l' && "ale"@[2] == 'e');
    assert("alw"@[0] == 'a' && "alw"@[1] == 'l' && "alw"@[2] == 'w');
    assert("nlc"@[0] == 'n' && "nlc"@[1] == 'l' && "nlc"@[2] == 'c');
    assert("nle"@[0] == 'n' && "nle"@[1] == 'l' && "nle"@[2] == 'e');
    assert("nlw"@[0] == 'n' && "nlw"@[1] == 'l' && "nlw"@[2] == 'w');
    assert(fold_lower("nlw"@) =~= "nlw"@);
    match d {
        MLBDivision::ALCentral => assert(fold_lower(s) == "alc"@),
        MLBDivision::ALEast => assert(fold_lower(s) == "ale"@),
        MLBDivision::ALWest => assert(fold_lower(s) == "alw"@),
        MLBDivision::NLCentral => assert(fold_lower(s) == "nlc"@),
        MLBDivision::NLEast => assert(fold_lower(s) == "nle"@),
        MLBDivision::NLWest => assert(fold_lower(s) == "nlw"@),
    }
}


/// Law: both the lowercase and the uppercase spelling of a division's
/// code parse back to that division.
pub proof fn lemma_division_code_cases(d: MLBDivision)
    ensures
        division_from_code(fold_lower(division_code(d))) == Some(d),
        division_from_code(raise_upper(division_code(d))) == Some(d),
{
    lemma_fold_idempotent(division_code(d));
    lemma_fold_raise(division_code(d));
    lemma_division_round_trip(d, fold_lower(division_code(d)));
    lemma_division_round_trip(d, raise_upper(division_code(d)));
}

} // verus!
