//! Passive standings records as the API reports them: one record per
//! division, each holding ranked team records.

use vstd::prelude::*;

use crate::teams::{default_team, Team, TeamV};
use crate::types::{default_id_name_link, default_record, IdNameLink, IdNameLinkV, Record, RecordV};

verus! {

/// The standings response: one record per division.
#[derive(Debug, PartialEq)]
pub struct StandingsResponse {
    pub records: Vec<StandingsRecord>,
}

/// The standings of one division.
#[derive(Debug, PartialEq)]
pub struct StandingsRecord {
    pub standings_type: String,
    pub league: IdNameLink,
    pub division: IdNameLink,
    pub team_records: Vec<TeamRecord>,
}

/// One team's line in the standings.
#[derive(Debug, PartialEq)]
pub struct TeamRecord {
    pub team: Team,
    pub streak: Streak,
    pub division_rank: String,
    pub league_rank: String,
    pub wild_card_rank: Option<String>,
    pub sport_rank: String,
    pub games_played: u32,
    pub wild_card_games_back: String,
    pub division_games_back: String,
    pub league_record: Record,
    pub records: Split,
    pub runs_allowed: u32,
    pub runs_scored: u32,
    pub wins: u32,
    pub losses: u32,
    pub run_differential: i32,
    pub winning_percentage: String,
    pub does_not_exist: String,
}

/// A team's current streak.
#[derive(Debug, PartialEq)]
pub struct Streak {
    pub streak_type: String,
    pub streak_number: u32,
    pub streak_code: String,
}

/// The split records of a team.
#[derive(Debug, PartialEq)]
pub struct Split {
    pub split_records: Vec<Record>,
    pub division_records: Vec<Record>,
    pub overall_records: Vec<Record>,
    pub league_records: Vec<Record>,
    pub expected_records: Vec<Record>,
}

/// The kinds of standings the API can be asked for.
#[derive(Clone, Copy, PartialEq, Eq, Structural, Debug, Hash)]
pub enum StandingType {
    RegularSeason,
    WildCard,
    DivisionLeaders,
    WildCardWithLeaders,
    FirstHalf,
    SecondHalf,
    SpringTraining,
    Postseason,
    ByDivision,
    ByConference,
    ByLeague,
    ByOrganization,
}

/// The mathematical model of a `Streak`.
pub struct StreakV {
    pub streak_type: Seq<char>,
    pub streak_number: u32,
    pub streak_code: Seq<char>,
}

impl View for Streak {
    type V = StreakV;

    open spec fn view(&self) -> StreakV {
        StreakV {
            streak_type: self.streak_type@,
            streak_number: self.streak_number,
            streak_code: self.streak_code@,
        }
    }
}

impl DeepView for Streak {
    type V = StreakV;

    open spec fn deep_view(&self) -> StreakV {
        self.view()
    }
}

/// The model of the default streak: empty texts, count zero.
pub open spec fn default_streak() -> StreakV {
    StreakV {
        streak_type: Seq::<char>::empty(),
        streak_number: 0,
        streak_code: Seq::<char>::empty(),
    }
}

impl Default for Streak {
    /// The default streak: empty texts, count zero.
    fn default() -> (r: Self)
        ensures
            r@ == default_streak(),
    {
        Streak { streak_type: String::new(), streak_number: 0, streak_code: String::new() }
    }
}

/// The mathematical model of a `Split`.
pub struct SplitV {
    pub split_records: Seq<RecordV>,
    pub division_records: Seq<RecordV>,
    pub overall_records: Seq<RecordV>,
    pub league_records: Seq<RecordV>,
    pub expected_records: Seq<RecordV>,
}

impl View for Split {
    type V = SplitV;

    open spec fn view(&self) -> SplitV {
        SplitV {
            split_records: self.split_records.deep_view(),
            division_records: self.division_records.deep_view(),
            overall_records: self.overall_records.deep_view(),
            league_records: self.league_records.deep_view(),
            expected_records: self.expected_records.deep_view(),
        }
    }
}

impl DeepView for Split {
    type V = SplitV;

    open spec fn deep_view(&self) -> SplitV {
        self.view()
    }
}

/// The model of the default split: every list empty.
pub open spec fn default_split() -> SplitV {
    SplitV {
        split_records: Seq::<RecordV>::empty(),
        division_records: Seq::<RecordV>::empty(),
        overall_records: Seq::<RecordV>::empty(),
        league_records: Seq::<RecordV>::empty(),
        expected_records: Seq::<RecordV>::empty(),
    }
}

impl Default for Split {
    /// The default split: every list empty.
    fn default() -> (r: Self)
        ensures
            r@ == default_split(),
    {
        let r = Split {
            split_records: Vec::new(),
            division_records: Vec::new(),
            overall_records: Vec::new(),
            league_records: Vec::new(),
            expected_records: Vec::new(),
        };
        proof {
            assert(r.split_records.deep_view() =~= Seq::<RecordV>::empty());
            assert(r.division_records.deep_view() =~= Seq::<RecordV>::empty());
            assert(r.overall_records.deep_view() =~= Seq::<RecordV>::empty());
            assert(r.league_records.deep_view() =~= Seq::<RecordV>::empty());
            assert(r.expected_records.deep_view() =~= Seq::<RecordV>::empty());
        }
        r
    }
}

/// The mathematical model of a `TeamRecord`.
pub struct TeamRecordV {
    pub team: TeamV,
    pub streak: StreakV,
    pub division_rank: Seq<char>,
    pub league_rank: Seq<char>,
    pub wild_card_rank: Option<Seq<char>>,
    pub sport_rank: Seq<char>,
    pub games_played: u32,
    pub wild_card_games_back: Seq<char>,
    pub division_games_back: Seq<char>,
    pub league_record: RecordV,
    pub records: SplitV,
    pub runs_allowed: u32,
    pub runs_scored: u32,
    pub wins: u32,
    pub losses: u32,
    pub run_differential: i32,
    pub winning_percentage: Seq<char>,
    pub does_not_exist: Seq<char>,
}

impl View for TeamRecord {
    type V = TeamRecordV;

    open spec fn view(&self) -> TeamRecordV {
        TeamRecordV {
            team: self.team@,
            streak: self.streak@,
            division_rank: self.division_rank@,
            league_rank: self.league_rank@,
            wild_card_rank: self.wild_card_rank.deep_view(),
            sport_rank: self.sport_rank@,
            games_played: self.games_played,
            wild_card_games_back: self.wild_card_games_back@,
            division_games_back: self.division_games_back@,
            league_record: self.league_record@,
            records: self.records@,
            runs_allowed: self.runs_allowed,
            runs_scored: self.runs_scored,
            wins: self.wins,
            losses: self.losses,
            run_differential: self.run_differential,
            winning_percentage: self.winning_percentage@,
            does_not_exist: self.does_not_exist@,
        }
    }
}

impl DeepView for TeamRecord {
    type V = TeamRecordV;

    open spec fn deep_view(&self) -> TeamRecordV {
        self.view()
    }
}

/// The model of the default team line: default team, all counts zero.
pub open spec fn default_team_record() -> TeamRecordV {
    TeamRecordV {
        team: default_team(),
        streak: default_streak(),
        division_rank: Seq::<char>::empty(),
        league_rank: Seq::<char>::empty(),
        wild_card_rank: None,
        sport_rank: Seq::<char>::empty(),
        games_played: 0,
        wild_card_games_back: Seq::<char>::empty(),
        division_games_back: Seq::<char>::empty(),
        league_record: default_record(),
        records: default_split(),
        runs_allowed: 0,
        runs_scored: 0,
        wins: 0,
        losses: 0,
        run_differential: 0,
        winning_percentage: Seq::<char>::empty(),
        does_not_exist: Seq::<char>::empty(),
    }
}

impl Default for TeamRecord {
    /// The default team line: default team, all counts zero.
    fn default() -> (r: Self)
        ensures
            r@ == default_team_record(),
    {
        TeamRecord {
            team: Team::default(),
            streak: Streak::default(),
            division_rank: String::new(),
            league_rank: String::new(),
            wild_card_rank: None,
            sport_rank: String::new(),
            games_played: 0,
            wild_card_games_back: String::new(),
            division_games_back: String::new(),
            league_record: Record::default(),
            records: Split::default(),
            runs_allowed: 0,
            runs_scored: 0,
            wins: 0,
            losses: 0,
            run_differential: 0,
            winning_percentage: String::new(),
            does_not_exist: String::new(),
        }
    }
}

/// The mathematical model of a `StandingsRecord`.
pub struct StandingsRecordV {
    pub standings_type: Seq<char>,
    pub league: IdNameLinkV,
    pub division: IdNameLinkV,
    pub team_records: Seq<TeamRecordV>,
}

impl View for StandingsRecord {
    type V = StandingsRecordV;

    open spec fn view(&self) -> StandingsRecordV {
        StandingsRecordV {
            standings_type: self.standings_type@,
            league: self.league@,
            division: self.division@,
            team_records: self.team_records.deep_view(),
        }
    }
}

impl DeepView for StandingsRecord {
    type V = StandingsRecordV;

    open spec fn deep_view(&self) -> StandingsRecordV {
        self.view()
    }
}

/// The model of the default division standings: no team records.
pub open spec fn default_standings_record() -> StandingsRecordV {
    StandingsRecordV {
        standings_type: Seq::<char>::empty(),
        league: default_id_name_link(),
        division: default_id_name_link(),
        team_records: Seq::<TeamRecordV>::empty(),
    }
}

impl Default for StandingsRecord {
    /// The default division standings: no team records.
    fn default() -> (r: Self)
        ensures
            r@ == default_standings_record(),
    {
        let r = StandingsRecord {
            standings_type: String::new(),
            league: IdNameLink::default(),
            division: IdNameLink::default(),
            team_records: Vec::new(),
        };
        proof {
            assert(r.team_records.deep_view() =~= Seq::<TeamRecordV>::empty());
        }
        r
    }
}

impl View for StandingsResponse {
    type V = Seq<StandingsRecordV>;

    open spec fn view(&self) -> Seq<StandingsRecordV> {
        self.records.deep_view()
    }
}

impl DeepView for StandingsResponse {
    type V = Seq<StandingsRecordV>;

    open spec fn deep_view(&self) -> Seq<StandingsRecordV> {
        self.view()
    }
}

impl Default for StandingsResponse {
    /// The default standings: no records.
    fn default() -> (r: Self)
        ensures
            r@ == Seq::<StandingsRecordV>::empty(),
    {
        let r = StandingsResponse { records: Vec::new() };
        proof {
            assert(r.records.deep_view() =~= Seq::<StandingsRecordV>::empty());
        }
        r
    }
}

} // verus!
