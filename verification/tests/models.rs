//! Response models: defaults for sparse payloads, schedule
//! flattening, and the derived rows and texts.

use mlbstats::display::{leader_rows, score_box_lines, standings_rows};
use mlbstats::games::{game_status, Game, GameTeam, GameTypes};
use mlbstats::linescore::{Linescore, RunsHitsErrorsLOB, Score};
use mlbstats::players::Player;
use mlbstats::schedule::{game_ids, Date, ScheduleResponse};
use mlbstats::standings::{StandingsRecord, TeamRecord};
use mlbstats::stats::stats_leaders::{Leader, LeaderCategory};
use mlbstats::stats::types::LeagueLeaderTypes;
use mlbstats::error::{CLIError, MLBStatsError};
use mlbstats::teams::Team;

fn named_team(name: &str) -> Team {
    Team { name: name.to_string(), ..Default::default() }
}

#[test]
fn defaults_fill_missing_fields() {
    // a scheduled-but-not-started game has no linescore and no score
    let game = Game::default();
    assert_eq!(game.game_pk, 0);
    assert_eq!(game.teams.away.score, None);
    assert_eq!(game.teams.home.team.name, "");
    assert_eq!(game.linescore.current_inning, 0);
    assert_eq!(game.linescore.teams.away.runs, 0);
    assert_eq!(game.linescore.innings.len(), 0);
    assert_eq!(game.status.detailed_state, "");
    assert_eq!(game.scoring_plays.len(), 0);
    assert!(matches!(game.game_type, GameTypes::R));

    let record = TeamRecord::default();
    assert_eq!(record.wins, 0);
    assert_eq!(record.losses, 0);
    assert_eq!(record.division_games_back, "");
    assert_eq!(record.team.name, "");
    assert_eq!(record.records.split_records.len(), 0);

    let player = Player::default();
    assert_eq!(player.id, 0);
    assert_eq!(player.full_name, "");
    assert!(!player.active);
}

fn pk_game(pk: u32) -> Game {
    Game { game_pk: pk, ..Default::default() }
}

#[test]
fn schedule_flattens_in_order() {
    let schedule = ScheduleResponse {
        total_games: 3,
        dates: vec![
            Date {
                date: "2022-04-12".to_string(),
                total_games: 2,
                games: vec![pk_game(11), pk_game(12)],
            },
            Date {
                date: "2022-04-13".to_string(),
                total_games: 1,
                games: vec![pk_game(21)],
            },
        ],
    };
    let games = schedule.games();
    let pks: Vec<u32> = games.iter().map(|g| g.game_pk).collect();
    assert_eq!(pks, vec![11, 12, 21]);
    assert_eq!(game_ids(&schedule), vec![11, 12, 21]);

    let empty = ScheduleResponse::default();
    assert_eq!(empty.games().len(), 0);
}

#[test]
fn score_text_exact() {
    let game = Game {
        game_pk: 662024,
        teams: mlbstats::games::GameTeams {
            away: GameTeam { score: Some(2), team: named_team("Texas Rangers"), ..Default::default() },
            home: GameTeam { score: None, team: named_team("Seattle Mariners"), ..Default::default() },
        },
        ..Default::default()
    };
    assert_eq!(game.score(), "662024\nTexas Rangers: 2\nSeattle Mariners: 0");
}

#[test]
fn game_status_in_progress_shows_inning() {
    let mut game = Game::default();
    game.status.detailed_state = "In Progress".to_string();
    game.linescore.inning_state = "Top".to_string();
    game.linescore.current_inning = 5;
    assert_eq!(game_status(&game), "Top 5");

    game.status.detailed_state = "Final".to_string();
    assert_eq!(game_status(&game), "Final");
}

#[test]
fn score_box_rows() {
    let game = Game {
        teams: mlbstats::games::GameTeams {
            away: GameTeam { team: named_team("Away Club"), ..Default::default() },
            home: GameTeam { team: named_team("Home Club"), ..Default::default() },
        },
        linescore: Linescore {
            teams: Score {
                away: RunsHitsErrorsLOB { runs: 4, hits: 9, errors: 1, left_on_base: 6 },
                home: RunsHitsErrorsLOB { runs: 3, hits: 7, errors: 0, left_on_base: 5 },
            },
            ..Default::default()
        },
        ..Default::default()
    };
    let rows = score_box_lines(&game);
    assert_eq!(rows.len(), 2);
    assert_eq!(rows[0].name, "Away Club");
    assert_eq!(rows[0].runs, 4);
    assert_eq!(rows[0].hits, 9);
    assert_eq!(rows[0].errors, 1);
    assert_eq!(rows[1].name, "Home Club");
    assert_eq!(rows[1].runs, 3);
}

#[test]
fn standings_table_rows() {
    let record = StandingsRecord {
        team_records: vec![
            TeamRecord {
                team: named_team("First Club"),
                wins: 90,
                losses: 72,
                division_games_back: "-".to_string(),
                ..Default::default()
            },
            TeamRecord {
                team: named_team("Second Club"),
                wins: 85,
                losses: 77,
                division_games_back: "5.0".to_string(),
                ..Default::default()
            },
        ],
        ..Default::default()
    };
    let rows = standings_rows(&record);
    assert_eq!(rows.len(), 2);
    assert_eq!(rows[0].team, "First Club");
    assert_eq!(rows[0].record, "90-72");
    assert_eq!(rows[0].games_back, "-");
    assert_eq!(rows[1].team, "Second Club");
    assert_eq!(rows[1].record, "85-77");
    assert_eq!(rows[1].games_back, "5.0");
}

#[test]
fn leaders_table_rows() {
    let category = LeaderCategory {
        leader_category: LeagueLeaderTypes::HomeRuns,
        season: Some("2022".to_string()),
        leaders: vec![
            Leader {
                rank: 1,
                value: "62".to_string(),
                person: Player { full_name: "A Slugger".to_string(), ..Default::default() },
                season: "2022".to_string(),
                num_teams: 1,
            },
            Leader {
                rank: 2,
                value: "46".to_string(),
                person: Player { full_name: "B Slugger".to_string(), ..Default::default() },
                season: "2022".to_string(),
                num_teams: 1,
            },
        ],
    };
    let rows = leader_rows(&category);
    assert_eq!(rows.len(), 2);
    assert_eq!(rows[0].rank, 1);
    assert_eq!(rows[0].value, "62");
    assert_eq!(rows[0].name, "A Slugger");
    assert_eq!(rows[1].rank, 2);
}

#[test]
fn wire_names_exact() {
    assert_eq!(LeagueLeaderTypes::HomeRuns.wire_name(), "homeRuns");
    assert_eq!(LeagueLeaderTypes::EarnedRunAverage.wire_name(), "earnedRunAverage");
    assert_eq!(LeagueLeaderTypes::WalksAndHitsPerInningPitched.wire_name(), "walksAndHitsPerInningPitched");
    assert_eq!(GameTypes::R.code(), "R");
    assert_eq!(GameTypes::W.code(), "W");
    assert_eq!(mlbstats::stats::types::StatGroup::Hitting.wire_name(), "hitting");
}

#[test]
fn error_messages_exact() {
    assert_eq!(
        CLIError::DateParseError.message(),
        "failed to parse date, use YYYY-MM-DD format"
    );
    assert_eq!(
        MLBStatsError::MLBLeagueConversionError("xx".to_string()).message(),
        "failed to convert league: xx is not a league"
    );
    assert_eq!(
        MLBStatsError::MLBConversionError("division".to_string(), "zzz".to_string()).message(),
        "failed to convert division: zzz is not a division"
    );
}

#[test]
fn cloned_game_equals_original() {
    let game = Game {
        game_pk: 7,
        teams: mlbstats::games::GameTeams {
            away: GameTeam { score: Some(1), team: named_team("A"), ..Default::default() },
            home: GameTeam { score: Some(2), team: named_team("B"), ..Default::default() },
        },
        ..Default::default()
    };
    let copy = game.clone();
    assert_eq!(copy, game);
}
