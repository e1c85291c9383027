//! What each command computes before anything is rendered: the rows
//! of the score box, the standings table and the leaders table, and
//! the parameter bag each command sends.

use vstd::prelude::*;

use crate::client::{standings_params, stats_leaders_params};
use crate::commands::{stat_group_of, stat_leader_type, LeadersOpts, ScoreboardOpts};
use crate::dates::{parse_date, try_convert_date_string};
use crate::error::CLIError;
use crate::games::{Game, GameTypes};
use crate::league::MLBLeague;
use crate::params::QueryParams;
use crate::standings::StandingsRecord;
use crate::stats::stats_leaders::LeaderCategory;
use crate::stats::types::LeagueLeaderTypes;
use crate::text::{dec_digits, u32_string};

verus! {

/// One line of a score box: a team and its runs, hits and errors.
#[derive(Debug, PartialEq)]
pub struct ScoreLine {
    pub name: String,
    pub runs: u8,
    pub hits: u8,
    pub errors: u8,
}

/// The two lines of a game's score box: the away team's, then the
/// home team's, each with that side's runs, hits and errors.
pub fn score_box_lines(game: &Game) -> (r: Vec<ScoreLine>)
    ensures
        r@.len() == 2,
        r@[0].name@ == game@.teams.away.team.name,
        r@[0].runs == game@.linescore.teams.away.runs,
        r@[0].hits == game@.linescore.teams.away.hits,
        r@[0].errors == game@.linescore.teams.away.errors,
        r@[1].name@ == game@.teams.home.team.name,
        r@[1].runs == game@.linescore.teams.home.runs,
        r@[1].hits == game@.linescore.teams.home.hits,
        r@[1].errors == game@.linescore.teams.home.errors,
{
    let mut rows: Vec<ScoreLine> = Vec::new();
    rows.push(
        ScoreLine {
            name: game.teams.away.team.name.clone(),
            runs: game.linescore.teams.away.runs,
            hits: game.linescore.teams.away.hits,
            errors: game.linescore.teams.away.errors,
        },
    );
    rows.push(
        ScoreLine {
            name: game.teams.home.team.name.clone(),
            runs: game.linescore.teams.home.runs,
            hits: game.linescore.teams.home.hits,
            errors: game.linescore.teams.home.errors,
        },
    );
    rows
}

/// One line of a standings table: the team, its win-loss record, and
/// its games back.
#[derive(Debug, PartialEq)]
pub struct StandingsRow {
    pub team: String,
    pub record: String,
    pub games_back: String,
}

/// The `W-L` text of a win-loss record.
pub open spec fn record_text(wins: u32, losses: u32) -> Seq<char> {
    dec_digits(wins as int) + "-"@ + dec_digits(losses as int)
}

/// The standings table rows of one division's record: one row per
/// team, in order, with its name, `W-L` record and games back.
pub fn standings_rows(record: &StandingsRecord) -> (r: Vec<StandingsRow>)
    ensures
        r@.len() == record@.team_records.len(),
        forall|i: int|
            0 <= i < r@.len() ==> {
                &&& (#[trigger] r@[i]).team@ == record@.team_records[i].team.name
                &&& r@[i].record@ == record_text(
                    record@.team_records[i].wins,
                    record@.team_records[i].losses,
                )
                &&& r@[i].games_back@ == record@.team_records[i].division_games_back
            },
{
    let mut rows: Vec<StandingsRow> = Vec::new();
    let mut i: usize = 0;
    while i < record.team_records.len()
        invariant
            i <= record.team_records@.len(),
            record@.team_records.len() == record.team_records@.len(),
            rows@.len() == i,
            forall|k: int|
                0 <= k < i ==> {
                    &&& (#[trigger] rows@[k]).team@ == record@.team_records[k].team.name
                    &&& rows@[k].record@ == record_text(
                        record@.team_records[k].wins,
                        record@.team_records[k].losses,
                    )
                    &&& rows@[k].games_back@ == record@.team_records[k].division_games_back
                },
        decreases record.team_records@.len() - i,
    {
        let tr = &record.team_records[i];
        let mut rec = u32_string(tr.wins);
        rec.append("-");
        let losses = u32_string(tr.losses);
        rec.append(losses.as_str());
        rows.push(
            StandingsRow {
                team: tr.team.name.clone(),
                record: rec,
                games_back: tr.division_games_back.clone(),
            },
        );
        i += 1;
    }
    rows
}

/// One line of a leaders table: a rank, the stat's value, a name.
#[derive(Debug, PartialEq)]
pub struct StatRank {
    pub rank: u32,
    pub value: String,
    pub name: String,
}

/// The leaders table rows of one category: one row per leader, in
/// order, with the rank, the value and the player's full name.
pub fn leader_rows(category: &LeaderCategory) -> (r: Vec<StatRank>)
    ensures
        r@.len() == category@.leaders.len(),
        forall|i: int|
            0 <= i < r@.len() ==> {
                &&& (#[trigger] r@[i]).rank == category@.leaders[i].rank
                &&& r@[i].value@ == category@.leaders[i].value
                &&& r@[i].name@ == category@.leaders[i].person.full_name
            },
{
    let mut rows: Vec<StatRank> = Vec::new();
    let mut i: usize = 0;
    while i < category.leaders.len()
        invariant
            i <= category.leaders@.len(),
            category@.leaders.len() == category.leaders@.len(),
            rows@.len() == i,
            forall|k: int|
                0 <= k < i ==> {
                    &&& (#[trigger] rows@[k]).rank == category@.leaders[k].rank
                    &&& rows@[k].value@ == category@.leaders[k].value
                    &&& rows@[k].name@ == category@.leaders[k].person.full_name
                },
        decreases category.leaders@.len() - i,
    {
        let leader = &category.leaders[i];
        rows.push(
            StatRank {
                rank: leader.rank,
                value: leader.value.clone(),
                name: leader.person.full_name.clone(),
            },
        );
        i += 1;
    }
    rows
}

/// The parameter bag of the scoreboard command: the user's date text
/// passed through as given, the optional league and team filters, and
/// a hydration directive asking for teams and linescores inline.
pub fn scoreboard_request(opts: ScoreboardOpts) -> (r: QueryParams)
    ensures
        r.date == opts.date,
        match opts.league {
            None => r.league_id is None,
            Some(l) => r.league_id matches Some(ls) && ls@ == seq![l],
        },
        r.team_id == opts.team,
        r.hydrate matches Some(h) && h@ == "team,linescore"@,
        r.season is None,
        r.standings_types is None,
        r.fields is None,
        r.sport_id == 1,
        r.leader_categories is None,
        r.leader_game_types is None,
        r.stat_group is None,
        r.limit is None,
{
    let league_id: Option<Vec<MLBLeague>> = match opts.league {
        None => None,
        Some(l) => {
            let ls = vec![l];
            proof {
                assert(ls@ =~= seq![l]);
            }
            Some(ls)
        },
    };
    QueryParams {
        date: opts.date,
        league_id,
        team_id: opts.team,
        hydrate: Some("team,linescore".to_owned()),
        ..Default::default()
    }
}

/// The parameter bag of the standings command: the one league, and,
/// when a date was given, that date and its year as the season; a date
/// in neither accepted format is a `DateParseError`.
pub fn standings_request(opts_league: MLBLeague, opts_date: Option<String>) -> (r: Result<
    QueryParams,
    CLIError,
>)
    ensures
        match opts_date {
            None => r matches Ok(p) && standings_request_shape(p, opts_league) && p.date is None
                && p.season is None,
            Some(s) => match parse_date(s@) {
                Some(d) => r matches Ok(p) && standings_request_shape(p, opts_league) && (
                p.date matches Some(ds) && ds@ == crate::client::date_text(d)) && (
                p.season matches Some(se) && se@ == dec_digits(d.year as int)),
                None => r matches Err(e) && e is DateParseError,
            },
        },
{
    let date = match try_convert_date_string(opts_date) {
        Ok(d) => d,
        Err(e) => {
            return Err(e);
        },
    };
    let season = match &date {
        None => None,
        Some(d) => Some(u32_string(d.year)),
    };
    let leagues = vec![opts_league];
    proof {
        assert(leagues@ =~= seq![opts_league]);
    }
    Ok(standings_params(leagues, season, date))
}

/// The fields of a standings request that do not depend on the date:
/// exactly the one league, and nothing else set.
pub open spec fn standings_request_shape(p: QueryParams, league: MLBLeague) -> bool {
    &&& p.league_id matches Some(ls) && ls@ == seq![league]
    &&& p.standings_types is None
    &&& p.fields is None
    &&& p.hydrate is None
    &&& p.sport_id == 1
    &&& p.leader_categories is None
    &&& p.leader_game_types is None
    &&& p.stat_group is None
    &&& p.limit is None
    &&& p.team_id is None
}

/// The parameter bag of the league-leaders command: the one category
/// the stat stands for, regular-season games, the stat's group, the
/// limit, and the optional league filter.
pub fn leaders_request(opts: LeadersOpts) -> (r: QueryParams)
    ensures
        r.leader_categories matches Some(cs) && cs@ == seq![stat_leader_type(opts.stat)],
        r.leader_game_types matches Some(gs) && gs@ == seq![GameTypes::R],
        r.stat_group == Some(stat_group_of(opts.stat)),
        r.limit == Some(opts.limit),
        match opts.league {
            None => r.league_id is None,
            Some(l) => r.league_id matches Some(ls) && ls@ == seq![l],
        },
        r.date is None,
        r.season is None,
        r.standings_types is None,
        r.fields is None,
        r.hydrate is None,
        r.sport_id == 1,
        r.team_id is None,
{
    let stat_group = opts.stat.stat_group();
    let categories = vec![LeagueLeaderTypes::from(opts.stat)];
    let game_types = vec![GameTypes::R];
    let league_id: Option<Vec<MLBLeague>> = match opts.league {
        None => None,
        Some(l) => {
            let ls = vec![l];
            proof {
                assert(ls@ =~= seq![l]);
            }
            Some(ls)
        },
    };
    proof {
        assert(categories@ =~= seq![stat_leader_type(opts.stat)]);
        assert(game_types@ =~= seq![GameTypes::R]);
    }
    stats_leaders_params(categories, game_types, Some(stat_group), Some(opts.limit), league_id)
}

} // verus!
