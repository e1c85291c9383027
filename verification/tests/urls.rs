//! URL building and query-string serialization.

use mlbstats::client::build_url;
use mlbstats::commands::{LeadersOpts, ScoreboardOpts, Stat};
use mlbstats::display::{leaders_request, scoreboard_request, standings_request};
use mlbstats::error::MLBStatsError;
use mlbstats::league::MLBLeague;
use mlbstats::params::{to_query_string, QueryParams};
use mlbstats::teams::MLBTeam;

#[test]
fn url_building() -> Result<(), MLBStatsError> {
    // no params
    let url = build_url("v1/standings", None)?;
    assert_eq!(url, "https://statsapi.mlb.com/api/v1/standings");

    // empty params
    let params = QueryParams { ..Default::default() };
    let url = build_url("v1/standings", Some(&params))?;
    assert_eq!(url, "https://statsapi.mlb.com/api/v1/standings?sportId=1");

    // with a param
    let params = QueryParams { league_id: Some(vec![MLBLeague::AL]), ..Default::default() };
    let url = build_url("v1/standings", Some(&params))?;
    assert_eq!(url, "https://statsapi.mlb.com/api/v1/standings?leagueId=103&sportId=1");

    let params = QueryParams {
        league_id: Some(vec![MLBLeague::AL, MLBLeague::NL]),
        ..Default::default()
    };

    let url = build_url("v1/standings", Some(&params))?;
    assert_eq!(
        url,
        "https://statsapi.mlb.com/api/v1/standings?leagueId=103&leagueId=104&sportId=1"
    );

    Ok(())
}

#[test]
fn standings_for_al_without_date() {
    // The whole request shape: league AL, no date, no season.
    let params = standings_request(MLBLeague::AL, None).unwrap();
    let url = build_url("v1/standings", Some(&params)).unwrap();
    assert_eq!(url, "https://statsapi.mlb.com/api/v1/standings?leagueId=103&sportId=1");
}

#[test]
fn standings_with_date_gets_season() {
    let params = standings_request(MLBLeague::NL, Some("2022-04-12".to_string())).unwrap();
    assert_eq!(params.date.as_deref(), Some("04/12/2022"));
    assert_eq!(params.season.as_deref(), Some("2022"));
    let q = to_query_string(&params);
    assert_eq!(q, "leagueId=104&date=04%2F12%2F2022&season=2022&sportId=1");
}

#[test]
fn serialize_mlbteam() {
    let tex = MLBTeam::TEX;
    let params = QueryParams { team_id: Some(tex), ..Default::default() };
    assert_eq!(to_query_string(&params), "sportId=1&teamId=140");
}

#[test]
fn scoreboard_request_query() {
    let opts = ScoreboardOpts {
        team: Some(MLBTeam::TEX),
        date: Some("04-12-2022".to_string()),
        league: None,
    };
    let params = scoreboard_request(opts);
    let q = to_query_string(&params);
    assert_eq!(q, "date=04-12-2022&hydrate=team%2Clinescore&sportId=1&teamId=140");
}

#[test]
fn leaders_request_query() {
    let opts = LeadersOpts { stat: Stat::HR, league: Some(MLBLeague::AL), limit: 5 };
    let params = leaders_request(opts);
    let q = to_query_string(&params);
    assert_eq!(
        q,
        "leagueId=103&sportId=1&leaderCategories=homeRuns&leaderGameTypes=R&statGroup=hitting&limit=5"
    );
}

#[test]
fn leaders_request_era_group() {
    let opts = LeadersOpts { stat: Stat::ERA, league: None, limit: 3 };
    let params = leaders_request(opts);
    let q = to_query_string(&params);
    assert_eq!(
        q,
        "sportId=1&leaderCategories=earnedRunAverage&leaderGameTypes=R&statGroup=pitching&limit=3"
    );
}

#[test]
fn query_encodes_reserved_bytes() {
    let params = QueryParams {
        hydrate: Some("a b/c,d".to_string()),
        ..Default::default()
    };
    assert_eq!(to_query_string(&params), "hydrate=a+b%2Fc%2Cd&sportId=1");
}
