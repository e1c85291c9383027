//! The command-line surface: the three commands, their options, and
//! the small vocabulary of leaderboard stats a user can ask for.

use vstd::prelude::*;

use crate::error::CLIError;
use crate::league::MLBLeague;
use crate::stats::types::{LeagueLeaderTypes, StatGroup};
use crate::teams::MLBTeam;
use crate::text::eq_exact;

verus! {

/// The parsed command line: one command.
#[derive(Debug)]
pub struct MLBStats {
    pub command: Commands,
}

/// The three commands.
#[derive(Debug)]
pub enum Commands {
    /// Prints score of one or many games. When no team is provided, all scores are printed.
    Scoreboard(ScoreboardOpts),
    /// Prints standings by division.
    Standings(StandingsOpts),
    /// Prints league leaders.
    LeagueLeaders(LeadersOpts),
}

/// Options of the scoreboard command.
#[derive(Debug)]
pub struct ScoreboardOpts {
    /// Team abbreviation (e.g. TEX or tex)
    pub team: Option<MLBTeam>,
    /// Date in MM-DD-YYYY or YYYY-MM-DD format. Defaults to today's date.
    pub date: Option<String>,
    /// League abbreviation (AL or NL)
    pub league: Option<MLBLeague>,
}

/// Options of the standings command.
#[derive(Debug)]
pub struct StandingsOpts {
    /// League abbreviation (AL or NL)
    pub league: MLBLeague,
    /// Date in MM-DD-YYYY or YYYY-MM-DD format. Defaults to today's date.
    pub date: Option<String>,
}

/// Options of the league-leaders command.
#[derive(Debug)]
pub struct LeadersOpts {
    pub stat: Stat,
    /// League abbreviation (AL or NL)
    pub league: Option<MLBLeague>,
    /// Limit of the results
    pub limit: u32,
}

/// The leaderboard stats the command line exposes.
#[derive(Clone, Copy, PartialEq, Eq, Structural, Debug, Hash)]
pub enum Stat {
    /// Home Runs
    HR,
    /// On Base Percentage Plus Slugging
    OPS,
    /// On Base Percentage
    OBP,
    /// Batting Average
    AVG,
    /// Earned Run Average
    ERA,
    /// Saves
    Saves,
}

/// The stat a lowercase command-line token names, if any.
pub open spec fn stat_from_code(s: Seq<char>) -> Option<Stat> {
    if s == "hr"@ {
        Some(Stat::HR)
    } else if s == "ops"@ {
        Some(Stat::OPS)
    } else if s == "obp"@ {
        Some(Stat::OBP)
    } else if s == "avg"@ {
        Some(Stat::AVG)
    } else if s == "era"@ {
        Some(Stat::ERA)
    } else if s == "saves"@ {
        Some(Stat::Saves)
    } else {
        None
    }
}

/// The wire category each command-line stat stands for.
pub open spec fn stat_leader_type(s: Stat) -> LeagueLeaderTypes {
    match s {
        Stat::HR => LeagueLeaderTypes::HomeRuns,
        Stat::OPS => LeagueLeaderTypes::OnBasePlusSlugging,
        Stat::OBP => LeagueLeaderTypes::OnBasePercentage,
        Stat::AVG => LeagueLeaderTypes::BattingAverage,
        Stat::ERA => LeagueLeaderTypes::EarnedRunAverage,
        Stat::Saves => LeagueLeaderTypes::Saves,
    }
}

/// The group each command-line stat belongs to: the batting stats to
/// hitting, earned-run average and saves to pitching.
pub open spec fn stat_group_of(s: Stat) -> StatGroup {
    match s {
        Stat::HR => StatGroup::Hitting,
        Stat::OPS => StatGroup::Hitting,
        Stat::OBP => StatGroup::Hitting,
        Stat::AVG => StatGroup::Hitting,
        Stat::ERA => StatGroup::Pitching,
        Stat::Saves => StatGroup::Pitching,
    }
}

/// The display name of each command-line stat.
pub open spec fn stat_display_name(s: Stat) -> Seq<char> {
    match s {
        Stat::HR => "Home Runs"@,
        Stat::OPS => "On-base Plus Slugging"@,
        Stat::OBP => "On-base Percentage"@,
        Stat::AVG => "Batting Average"@,
        Stat::ERA => "Earned Run Average"@,
        Stat::Saves => "Saves"@,
    }
}

impl Stat {
    /// Parses a lowercase command-line stat token.
    pub fn from_str(s: &str) -> (r: Result<Self, CLIError>)
        ensures
            match stat_from_code(s@) {
                Some(t) => r == Ok::<Stat, CLIError>(t),
                None => r matches Err(e) && e matches CLIError::ArgConversionFailed(a) && a@
                    == "stat"@,
            },
    {
        if eq_exact(s, "hr") {
            Ok(Self::HR)
        } else if eq_exact(s, "ops") {
            Ok(Self::OPS)
        } else if eq_exact(s, "obp") {
            Ok(Self::OBP)
        } else if eq_exact(s, "avg") {
            Ok(Self::AVG)
        } else if eq_exact(s, "era") {
            Ok(Self::ERA)
        } else if eq_exact(s, "saves") {
            Ok(Self::Saves)
        } else {
            Err(CLIError::ArgConversionFailed("stat".to_owned()))
        }
    }

    /// The group this stat's leaderboard is requested under.
    pub fn stat_group(&self) -> (r: StatGroup)
        ensures
            r == stat_group_of(*self),
    {
        match self {
            Stat::HR => StatGroup::Hitting,
            Stat::OPS => StatGroup::Hitting,
            Stat::OBP => StatGroup::Hitting,
            Stat::AVG => StatGroup::Hitting,
            Stat::ERA => StatGroup::Pitching,
            Stat::Saves => StatGroup::Pitching,
        }
    }

    /// The human-readable name of this stat.
    pub fn display_name(&self) -> (r: String)
        ensures
            r@ == stat_display_name(*self),
    {
        match self {
            Stat::HR => "Home Runs".to_owned(),
            Stat::OPS => "On-base Plus Slugging".to_owned(),
            Stat::OBP => "On-base Percentage".to_owned(),
            Stat::AVG => "Batting Average".to_owned(),
            Stat::ERA => "Earned Run Average".to_owned(),
            Stat::Saves => "Saves".to_owned(),
        }
    }
}

impl From<Stat> for LeagueLeaderTypes {
    /// The wire category this command-line stat stands for.
    fn from(s: Stat) -> (r: Self)
        ensures
            r == stat_leader_type(s),
    {
        match s {
            Stat::HR => LeagueLeaderTypes::HomeRuns,
            Stat::OPS => LeagueLeaderTypes::OnBasePlusSlugging,
            Stat::OBP => LeagueLeaderTypes::OnBasePercentage,
            Stat::AVG => LeagueLeaderTypes::BattingAverage,
            Stat::ERA => LeagueLeaderTypes::EarnedRunAverage,
            Stat::Saves => LeagueLeaderTypes::Saves,
        }
    }
}

impl vstd::std_specs::convert::FromSpecImpl<Stat> for LeagueLeaderTypes {
    open spec fn obeys_from_spec() -> bool {
        true
    }

    open spec fn from_spec(t: Stat) -> LeagueLeaderTypes {
        stat_leader_type(t)
    }
}

} // verus!
