//! The stat-category vocabulary: the named measures a leaderboard can
//! be ranked by, and the broad group each belongs to, with the exact
//! camelCase names they carry on the wire.

use vstd::prelude::*;

verus! {

/// Common parameter for stat queries: one named statistical measure.
#[derive(Clone, Copy, PartialEq, Eq, Structural, Debug, Hash)]
pub enum LeagueLeaderTypes {
    AirOuts,
    Assists,
    AtBats,
    Balk,
    BattingAverage,
    BlownSaves,
    CatcherEarnedRunAverage,
    CatchersInterference,
    CaughtStealing,
    Chances,
    CompleteGames,
    DoublePlays,
    Doubles,
    EarnedRun,
    EarnedRunAverage,
    Errors,
    ExtraBaseHits,
    FieldingPercentage,
    Flyouts,
    GamesFinished,
    GamesPlayed,
    GamesStarted,
    GroundIntoDoublePlays,
    GroundOuts,
    GroundoutToFlyoutRatio,
    HitBatsman,
    HitByPitches,
    Hits,
    HitsPer9Inn,
    Holds,
    HomeRuns,
    Innings,
    InningsPitched,
    IntentionalWalks,
    Losses,
    NumberOfPitches,
    OnBasePercentage,
    OnBasePlusSlugging,
    OutfieldAssists,
    PassedBalls,
    Pickoffs,
    PitchesPerInning,
    PutOuts,
    RangeFactorPer9Inn,
    RangeFactorPerGame,
    Runs,
    RunsBattedIn,
    SacrificeBunts,
    SacrificeFlies,
    SaveOpportunities,
    Saves,
    Shutouts,
    SluggingPercentage,
    StolenBasePercentage,
    StolenBases,
    StrikeoutWalkRatio,
    Strikeouts,
    StrikeoutsPer9Inn,
    ThrowingErrors,
    TotalBases,
    TotalBattersFaced,
    TotalPlateAppearances,
    TriplePlays,
    Triples,
    Walks,
    WalksAndHitsPerInningPitched,
    WalksPer9Inn,
    WildPitch,
    WinPercentage,
    Wins,
}

/// The camelCase name a stat category has on the wire.
pub open spec fn leader_type_wire(t: LeagueLeaderTypes) -> Seq<char> {
    match t {
        LeagueLeaderTypes::AirOuts => "airOuts"@,
        LeagueLeaderTypes::Assists => "assists"@,
        LeagueLeaderTypes::AtBats => "atBats"@,
        LeagueLeaderTypes::Balk => "balk"@,
        LeagueLeaderTypes::BattingAverage => "battingAverage"@,
        LeagueLeaderTypes::BlownSaves => "blownSaves"@,
        LeagueLeaderTypes::CatcherEarnedRunAverage => "catcherEarnedRunAverage"@,
        LeagueLeaderTypes::CatchersInterference => "catchersInterference"@,
        LeagueLeaderTypes::CaughtStealing => "caughtStealing"@,
        LeagueLeaderTypes::Chances => "chances"@,
        LeagueLeaderTypes::CompleteGames => "completeGames"@,
        LeagueLeaderTypes::DoublePlays => "doublePlays"@,
        LeagueLeaderTypes::Doubles => "doubles"@,
        LeagueLeaderTypes::EarnedRun => "earnedRun"@,
        LeagueLeaderTypes::EarnedRunAverage => "earnedRunAverage"@,
        LeagueLeaderTypes::Errors => "errors"@,
        LeagueLeaderTypes::ExtraBaseHits => "extraBaseHits"@,
        LeagueLeaderTypes::FieldingPercentage => "fieldingPercentage"@,
        LeagueLeaderTypes::Flyouts => "flyouts"@,
        LeagueLeaderTypes::GamesFinished => "gamesFinished"@,
        LeagueLeaderTypes::GamesPlayed => "gamesPlayed"@,
        LeagueLeaderTypes::GamesStarted => "gamesStarted"@,
        LeagueLeaderTypes::GroundIntoDoublePlays => "groundIntoDoublePlays"@,
        LeagueLeaderTypes::GroundOuts => "groundOuts"@,
        LeagueLeaderTypes::GroundoutToFlyoutRatio => "groundoutToFlyoutRatio"@,
        LeagueLeaderTypes::HitBatsman => "hitBatsman"@,
        LeagueLeaderTypes::HitByPitches => "hitByPitches"@,
        LeagueLeaderTypes::Hits => "hits"@,
        LeagueLeaderTypes::HitsPer9Inn => "hitsPer9Inn"@,
        LeagueLeaderTypes::Holds => "holds"@,
        LeagueLeaderTypes::HomeRuns => "homeRuns"@,
        LeagueLeaderTypes::Innings => "innings"@,
        LeagueLeaderTypes::InningsPitched => "inningsPitched"@,
        LeagueLeaderTypes::IntentionalWalks => "intentionalWalks"@,
        LeagueLeaderTypes::Losses => "losses"@,
        LeagueLeaderTypes::NumberOfPitches => "numberOfPitches"@,
        LeagueLeaderTypes::OnBasePercentage => "onBasePercentage"@,
        LeagueLeaderTypes::OnBasePlusSlugging => "onBasePlusSlugging"@,
        LeagueLeaderTypes::OutfieldAssists => "outfieldAssists"@,
        LeagueLeaderTypes::PassedBalls => "passedBalls"@,
        LeagueLeaderTypes::Pickoffs => "pickoffs"@,
        LeagueLeaderTypes::PitchesPerInning => "pitchesPerInning"@,
        LeagueLeaderTypes::PutOuts => "putOuts"@,
        LeagueLeaderTypes::RangeFactorPer9Inn => "rangeFactorPer9Inn"@,
        LeagueLeaderTypes::RangeFactorPerGame => "rangeFactorPerGame"@,
        LeagueLeaderTypes::Runs => "runs"@,
        LeagueLeaderTypes::RunsBattedIn => "runsBattedIn"@,
        LeagueLeaderTypes::SacrificeBunts => "sacrificeBunts"@,
        LeagueLeaderTypes::SacrificeFlies => "sacrificeFlies"@,
        LeagueLeaderTypes::SaveOpportunities => "saveOpportunities"@,
        LeagueLeaderTypes::Saves => "saves"@,
        LeagueLeaderTypes::Shutouts => "shutouts"@,
        LeagueLeaderTypes::SluggingPercentage => "sluggingPercentage"@,
        LeagueLeaderTypes::StolenBasePercentage => "stolenBasePercentage"@,
        LeagueLeaderTypes::StolenBases => "stolenBases"@,
        LeagueLeaderTypes::StrikeoutWalkRatio => "strikeoutWalkRatio"@,
        LeagueLeaderTypes::Strikeouts => "strikeouts"@,
        LeagueLeaderTypes::StrikeoutsPer9Inn => "strikeoutsPer9Inn"@,
        LeagueLeaderTypes::ThrowingErrors => "throwingErrors"@,
        LeagueLeaderTypes::TotalBases => "totalBases"@,
        LeagueLeaderTypes::TotalBattersFaced => "totalBattersFaced"@,
        LeagueLeaderTypes::TotalPlateAppearances => "totalPlateAppearances"@,
        LeagueLeaderTypes::TriplePlays => "triplePlays"@,
        LeagueLeaderTypes::Triples => "triples"@,
        LeagueLeaderTypes::Walks => "walks"@,
        LeagueLeaderTypes::WalksAndHitsPerInningPitched => "walksAndHitsPerInningPitched"@,
        LeagueLeaderTypes::WalksPer9Inn => "walksPer9Inn"@,
        LeagueLeaderTypes::WildPitch => "wildPitch"@,
        LeagueLeaderTypes::WinPercentage => "winPercentage"@,
        LeagueLeaderTypes::Wins => "wins"@,
    }
}

impl LeagueLeaderTypes {
    /// The camelCase name this stat category has on the wire.
    pub fn wire_name(&self) -> (r: &'static str)
        ensures
            r@ == leader_type_wire(*self),
    {
        match self {
            LeagueLeaderTypes::AirOuts => "airOuts",
            LeagueLeaderTypes::Assists => "assists",
            LeagueLeaderTypes::AtBats => "atBats",
            LeagueLeaderTypes::Balk => "balk",
            LeagueLeaderTypes::BattingAverage => "battingAverage",
            LeagueLeaderTypes::BlownSaves => "blownSaves",
            LeagueLeaderTypes::CatcherEarnedRunAverage => "catcherEarnedRunAverage",
            LeagueLeaderTypes::CatchersInterference => "catchersInterference",
            LeagueLeaderTypes::CaughtStealing => "caughtStealing",
            LeagueLeaderTypes::Chances => "chances",
            LeagueLeaderTypes::CompleteGames => "completeGames",
            LeagueLeaderTypes::DoublePlays => "doublePlays",
            LeagueLeaderTypes::Doubles => "doubles",
            LeagueLeaderTypes::EarnedRun => "earnedRun",
            LeagueLeaderTypes::EarnedRunAverage => "earnedRunAverage",
            LeagueLeaderTypes::Errors => "errors",
            LeagueLeaderTypes::ExtraBaseHits => "extraBaseHits",
            LeagueLeaderTypes::FieldingPercentage => "fieldingPercentage",
            LeagueLeaderTypes::Flyouts => "flyouts",
            LeagueLeaderTypes::GamesFinished => "gamesFinished",
            LeagueLeaderTypes::GamesPlayed => "gamesPlayed",
            LeagueLeaderTypes::GamesStarted => "gamesStarted",
            LeagueLeaderTypes::GroundIntoDoublePlays => "groundIntoDoublePlays",
            LeagueLeaderTypes::GroundOuts => "groundOuts",
            LeagueLeaderTypes::GroundoutToFlyoutRatio => "groundoutToFlyoutRatio",
            LeagueLeaderTypes::HitBatsman => "hitBatsman",
            LeagueLeaderTypes::HitByPitches => "hitByPitches",
            LeagueLeaderTypes::Hits => "hits",
            LeagueLeaderTypes::HitsPer9Inn => "hitsPer9Inn",
            LeagueLeaderTypes::Holds => "holds",
            LeagueLeaderTypes::HomeRuns => "homeRuns",
            LeagueLeaderTypes::Innings => "innings",
            LeagueLeaderTypes::InningsPitched => "inningsPitched",
            LeagueLeaderTypes::IntentionalWalks => "intentionalWalks",
            LeagueLeaderTypes::Losses => "losses",
            LeagueLeaderTypes::NumberOfPitches => "numberOfPitches",
            LeagueLeaderTypes::OnBasePercentage => "onBasePercentage",
            LeagueLeaderTypes::OnBasePlusSlugging => "onBasePlusSlugging",
            LeagueLeaderTypes::OutfieldAssists => "outfieldAssists",
            LeagueLeaderTypes::PassedBalls => "passedBalls",
            LeagueLeaderTypes::Pickoffs => "pickoffs",
            LeagueLeaderTypes::PitchesPerInning => "pitchesPerInning",
            LeagueLeaderTypes::PutOuts => "putOuts",
            LeagueLeaderTypes::RangeFactorPer9Inn => "rangeFactorPer9Inn",
            LeagueLeaderTypes::RangeFactorPerGame => "rangeFactorPerGame",
            LeagueLeaderTypes::Runs => "runs",
            LeagueLeaderTypes::RunsBattedIn => "runsBattedIn",
            LeagueLeaderTypes::SacrificeBunts => "sacrificeBunts",
            LeagueLeaderTypes::SacrificeFlies => "sacrificeFlies",
            LeagueLeaderTypes::SaveOpportunities => "saveOpportunities",
            LeagueLeaderTypes::Saves => "saves",
            LeagueLeaderTypes::Shutouts => "shutouts",
            LeagueLeaderTypes::SluggingPercentage => "sluggingPercentage",
            LeagueLeaderTypes::StolenBasePercentage => "stolenBasePercentage",
            LeagueLeaderTypes::StolenBases => "stolenBases",
            LeagueLeaderTypes::StrikeoutWalkRatio => "strikeoutWalkRatio",
            LeagueLeaderTypes::Strikeouts => "strikeouts",
            LeagueLeaderTypes::StrikeoutsPer9Inn => "strikeoutsPer9Inn",
            LeagueLeaderTypes::ThrowingErrors => "throwingErrors",
            LeagueLeaderTypes::TotalBases => "totalBases",
            LeagueLeaderTypes::TotalBattersFaced => "totalBattersFaced",
            LeagueLeaderTypes::TotalPlateAppearances => "totalPlateAppearances",
            LeagueLeaderTypes::TriplePlays => "triplePlays",
            LeagueLeaderTypes::Triples => "triples",
            LeagueLeaderTypes::Walks => "walks",
            LeagueLeaderTypes::WalksAndHitsPerInningPitched => "walksAndHitsPerInningPitched",
            LeagueLeaderTypes::WalksPer9Inn => "walksPer9Inn",
            LeagueLeaderTypes::WildPitch => "wildPitch",
            LeagueLeaderTypes::WinPercentage => "winPercentage",
            LeagueLeaderTypes::Wins => "wins",
        }
    }
}

/// Common parameter for stat queries: the family a stat belongs to.
#[derive(Clone, Copy, PartialEq, Eq, Structural, Debug, Hash)]
pub enum StatGroup {
    Catching,
    Fielding,
    Game,
    Hitting,
    Pitching,
    Running,
    Streak,
    Team,
}

/// The lowercase name a stat group has on the wire.
pub open spec fn stat_group_wire(g: StatGroup) -> Seq<char> {
    match g {
        StatGroup::Catching => "catching"@,
        StatGroup::Fielding => "fielding"@,
        StatGroup::Game => "game"@,
        StatGroup::Hitting => "hitting"@,
        StatGroup::Pitching => "pitching"@,
        StatGroup::Running => "running"@,
        StatGroup::Streak => "streak"@,
        StatGroup::Team => "team"@,
    }
}

impl StatGroup {
    /// The lowercase name this stat group has on the wire.
    pub fn wire_name(&self) -> (r: &'static str)
        ensures
            r@ == stat_group_wire(*self),
    {
        match self {
            StatGroup::Catching => "catching",
            StatGroup::Fielding => "fielding",
            StatGroup::Game => "game",
            StatGroup::Hitting => "hitting",
            StatGroup::Pitching => "pitching",
            StatGroup::Running => "running",
            StatGroup::Streak => "streak",
            StatGroup::Team => "team",
        }
    }
}

} // verus!
