//! Request shaping for the API's endpoints: the fixed base URL, the
//! full URL built from a path and an optional parameter bag, and the
//! parameter bags each endpoint is called with.  Sending the request
//! and decoding its body are left to the shell around the library.

use vstd::prelude::*;

use crate::dates::CalendarDate;
use crate::error::MLBStatsError;
use crate::games::GameTypes;
use crate::league::MLBLeague;
use crate::params::{query_string, to_query_string, QueryParams};
use crate::stats::types::{LeagueLeaderTypes, StatGroup};
use crate::teams::MLBTeam;
use crate::text::{dec_digits, dec_pad2, u32_string, u32_string_pad2};

verus! {

/// The fixed base of every request URL.
pub open spec fn base_url() -> Seq<char> {
    "https://statsapi.mlb.com/api/"@
}

/// The URL for a path and an optional parameter bag: the base and the
/// path, then `?` and the query string when one is present.
pub open spec fn url_text(path: Seq<char>, params: Option<QueryParams>) -> Seq<char> {
    match params {
        None => base_url() + path,
        Some(p) => if query_string(p).len() == 0 {
            base_url() + path
        } else {
            base_url() + path + "?"@ + query_string(p)
        },
    }
}

/// Builds the full URL for a request.
pub fn build_url(path: &str, params: Option<&QueryParams>) -> (r: Result<String, MLBStatsError>)
    ensures
        match params {
            None => r matches Ok(u) && u@ == url_text(path@, None),
            Some(p) => r matches Ok(u) && u@ == url_text(path@, Some(*p)),
        },
{
    let mut url = "https://statsapi.mlb.com/api/".to_owned();
    url.append(path);
    match params {
        None => Ok(url),
        Some(p) => {
            let q = to_query_string(p);
            if q.as_str().is_empty() {
                Ok(url)
            } else {
                url.append("?");
                url.append(q.as_str());
                Ok(url)
            }
        },
    }
}

/// The `MM/DD/YYYY` form of a date, month and day zero-padded.
pub open spec fn date_text(d: CalendarDate) -> Seq<char> {
    dec_pad2(d.month as int) + "/"@ + dec_pad2(d.day as int) + "/"@ + dec_digits(d.year as int)
}

/// Converts an optional calendar date to the `MM/DD/YYYY` form the
/// API expects.
pub fn option_date_to_string(date: Option<CalendarDate>) -> (r: Option<String>)
    ensures
        match date {
            None => r is None,
            Some(d) => r matches Some(s) && s@ == date_text(d),
        },
{
    match date {
        None => None,
        Some(d) => {
            let mut s = u32_string_pad2(d.month);
            s.append("/");
            let day = u32_string_pad2(d.day);
            s.append(day.as_str());
            s.append("/");
            let year = u32_string(d.year);
            s.append(year.as_str());
            proof {
                assert(s@ =~= date_text(d));
            }
            Some(s)
        },
    }
}

/// The parameter bag for a schedule request: the optional filters,
/// the date in `MM/DD/YYYY` form, everything else absent.
pub fn schedule_params(
    league_id: Option<Vec<MLBLeague>>,
    team_id: Option<MLBTeam>,
    date: Option<CalendarDate>,
    hydrate: Option<String>,
) -> (r: QueryParams)
    ensures
        r.league_id == league_id,
        match date {
            None => r.date is None,
            Some(d) => r.date matches Some(s) && s@ == date_text(d),
        },
        r.season is None,
        r.standings_types is None,
        r.fields is None,
        r.hydrate == hydrate,
        r.sport_id == 1,
        r.leader_categories is None,
        r.leader_game_types is None,
        r.stat_group is None,
        r.limit is None,
        r.team_id == team_id,
{
    QueryParams {
        date: option_date_to_string(date),
        league_id,
        team_id,
        hydrate,
        ..Default::default()
    }
}

/// The parameter bag for the teams request: both leagues, nothing else.
pub fn teams_params() -> (r: QueryParams)
    ensures
        r.league_id matches Some(ls) && ls@ == seq![MLBLeague::AL, MLBLeague::NL],
        r.date is None,
        r.season is None,
        r.standings_types is None,
        r.fields is None,
        r.hydrate is None,
        r.sport_id == 1,
        r.leader_categories is None,
        r.leader_game_types is None,
        r.stat_group is None,
        r.limit is None,
        r.team_id is None,
{
    let leagues = vec![MLBLeague::AL, MLBLeague::NL];
    proof {
        assert(leagues@ =~= seq![MLBLeague::AL, MLBLeague::NL]);
    }
    QueryParams { league_id: Some(leagues), ..Default::default() }
}

/// The parameter bag for a standings request: the leagues, the
/// optional season, the date in `MM/DD/YYYY` form.
pub fn standings_params(
    league_id: Vec<MLBLeague>,
    season: Option<String>,
    date: Option<CalendarDate>,
) -> (r: QueryParams)
    ensures
        r.league_id matches Some(ls) && ls@ == league_id@,
        match date {
            None => r.date is None,
            Some(d) => r.date matches Some(s) && s@ == date_text(d),
        },
        r.season == season,
        r.standings_types is None,
        r.fields is None,
        r.hydrate is None,
        r.sport_id == 1,
        r.leader_categories is None,
        r.leader_game_types is None,
        r.stat_group is None,
        r.limit is None,
        r.team_id is None,
{
    QueryParams {
        date: option_date_to_string(date),
        league_id: Some(league_id),
        season,
        ..Default::default()
    }
}

/// The parameter bag for a leaders request: the categories, the game
/// types, and the optional group, limit and league filters.
pub fn stats_leaders_params(
    leader_categories: Vec<LeagueLeaderTypes>,
    leader_game_types: Vec<GameTypes>,
    stat_group: Option<StatGroup>,
    limit: Option<u32>,
    league_id: Option<Vec<MLBLeague>>,
) -> (r: QueryParams)
    ensures
        r.league_id == league_id,
        r.date is None,
        r.season is None,
        r.standings_types is None,
        r.fields is None,
        r.hydrate is None,
        r.sport_id == 1,
        r.leader_categories matches Some(cs) && cs@ == leader_categories@,
        r.leader_game_types matches Some(gs) && gs@ == leader_game_types@,
        r.stat_group == stat_group,
        r.limit == limit,
        r.team_id is None,
{
    QueryParams {
        leader_categories: Some(leader_categories),
        leader_game_types: Some(leader_game_types),
        stat_group,
        limit,
        league_id,
        ..Default::default()
    }
}

} // verus!
