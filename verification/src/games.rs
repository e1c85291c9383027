//! Passive game records, the game-type vocabulary, and the small
//! derived computations on a game: its score block and its display
//! status.

use vstd::prelude::*;

use crate::linescore::{default_linescore, Linescore, LinescoreV};
use crate::players::{Player, PlayerV};
use crate::plays::{default_play, Play, PlayV};
use crate::teams::{default_team, Team, TeamV};
use crate::text::{dec_digits, eq_exact, u32_string};
use crate::types::{default_record, Record, RecordV};

verus! {

/// The competitive context of a game, as a single-letter wire code.
#[derive(Clone, Copy, PartialEq, Eq, Structural, Debug, Hash)]
pub enum GameTypes {
    /// Spring Training
    S,
    /// Regular Season
    R,
    /// Wild Card Game
    F,
    /// Division Series
    D,
    /// League Championship Series
    L,
    /// World Series
    W,
    /// Championship
    C,
    /// Nineteenth Century Series
    N,
    /// Playoffs
    P,
    /// All-Star Game
    A,
    /// Intrasquad
    I,
    /// Exhibition
    E,
}

/// The single-letter code a game type has on the wire.
pub open spec fn game_type_code(g: GameTypes) -> Seq<char> {
    match g {
        GameTypes::S => "S"@,
        GameTypes::R => "R"@,
        GameTypes::F => "F"@,
        GameTypes::D => "D"@,
        GameTypes::L => "L"@,
        GameTypes::W => "W"@,
        GameTypes::C => "C"@,
        GameTypes::N => "N"@,
        GameTypes::P => "P"@,
        GameTypes::A => "A"@,
        GameTypes::I => "I"@,
        GameTypes::E => "E"@,
    }
}

impl GameTypes {
    /// The single-letter code this game type has on the wire.
    pub fn code(&self) -> (r: &'static str)
        ensures
            r@ == game_type_code(*self),
    {
        match self {
            GameTypes::S => "S",
            GameTypes::R => "R",
            GameTypes::F => "F",
            GameTypes::D => "D",
            GameTypes::L => "L",
            GameTypes::W => "W",
            GameTypes::C => "C",
            GameTypes::N => "N",
            GameTypes::P => "P",
            GameTypes::A => "A",
            GameTypes::I => "I",
            GameTypes::E => "E",
        }
    }
}

impl Default for GameTypes {
    /// The default game type is the regular season.
    fn default() -> (r: Self)
        ensures
            r == GameTypes::R,
    {
        Self::R
    }
}

/// One scheduled or played game.
#[derive(Debug, PartialEq)]
pub struct Game {
    /// Game ID
    pub game_pk: u32,
    /// Path to Game endpoint
    pub link: String,
    /// Type of game being played (e.g. Regular Season)
    pub game_type: GameTypes,
    /// Teams playing in the game
    pub teams: GameTeams,
    /// Contains various information about the game's status
    pub status: GameStatus,
    /// Information about every inning of the game
    pub linescore: Linescore,
    /// List of all plays that resulted in runs scored
    pub scoring_plays: Vec<Play>,
    /// Most recent play since query
    pub previous_play: Play,
    /// All plays resulting in a home run in the game
    pub home_runs: Vec<Play>,
    /// List of players that played in the game
    pub lineups: Lineup,
}

/// The textual status of a game.
#[derive(Debug, PartialEq)]
pub struct GameStatus {
    pub abstract_game_state: String,
    pub coded_game_state: String,
    pub detailed_state: String,
    pub status_code: String,
    pub start_time_tbd: bool,
    pub abstract_game_code: String,
}

/// The two sides of a game.
#[derive(Debug, PartialEq)]
pub struct GameTeams {
    pub away: GameTeam,
    pub home: GameTeam,
}

/// One side of a game: the team, its score, and its season record.
#[derive(Debug, PartialEq)]
pub struct GameTeam {
    pub score: Option<u8>,
    pub team: Team,
    pub league_record: Record,
}

/// The players fielded by each side.
#[derive(Debug, PartialEq)]
pub struct Lineup {
    pub home_players: Vec<Player>,
    pub away_players: Vec<Player>,
}

/// The mathematical model of a `GameStatus`.
pub struct GameStatusV {
    pub abstract_game_state: Seq<char>,
    pub coded_game_state: Seq<char>,
    pub detailed_state: Seq<char>,
    pub status_code: Seq<char>,
    pub start_time_tbd: bool,
    pub abstract_game_code: Seq<char>,
}

impl View for GameStatus {
    type V = GameStatusV;

    open spec fn view(&self) -> GameStatusV {
        GameStatusV {
            abstract_game_state: self.abstract_game_state@,
            coded_game_state: self.coded_game_state@,
            detailed_state: self.detailed_state@,
            status_code: self.status_code@,
            start_time_tbd: self.start_time_tbd,
            abstract_game_code: self.abstract_game_code@,
        }
    }
}

impl DeepView for GameStatus {
    type V = GameStatusV;

    open spec fn deep_view(&self) -> GameStatusV {
        self.view()
    }
}

/// The model of the default status: every text empty.
pub open spec fn default_game_status() -> GameStatusV {
    GameStatusV {
        abstract_game_state: Seq::<char>::empty(),
        coded_game_state: Seq::<char>::empty(),
        detailed_state: Seq::<char>::empty(),
        status_code: Seq::<char>::empty(),
        start_time_tbd: false,
        abstract_game_code: Seq::<char>::empty(),
    }
}

impl Clone for GameStatus {
    /// A clone carries the same model.
    fn clone(&self) -> (r: Self)
        ensures
            r@ == self@,
    {
        GameStatus {
            abstract_game_state: self.abstract_game_state.clone(),
            coded_game_state: self.coded_game_state.clone(),
            detailed_state: self.detailed_state.clone(),
            status_code: self.status_code.clone(),
            start_time_tbd: self.start_time_tbd,
            abstract_game_code: self.abstract_game_code.clone(),
        }
    }
}

impl Default for GameStatus {
    /// The default status: every text empty.
    fn default() -> (r: Self)
        ensures
            r@ == default_game_status(),
    {
        GameStatus {
            abstract_game_state: String::new(),
            coded_game_state: String::new(),
            detailed_state: String::new(),
            status_code: String::new(),
            start_time_tbd: false,
            abstract_game_code: String::new(),
        }
    }
}

/// The mathematical model of a `GameTeam`.
pub struct GameTeamV {
    pub score: Option<u8>,
    pub team: TeamV,
    pub league_record: RecordV,
}

impl View for GameTeam {
    type V = GameTeamV;

    open spec fn view(&self) -> GameTeamV {
        GameTeamV { score: self.score, team: self.team@, league_record: self.league_record@ }
    }
}

impl DeepView for GameTeam {
    type V = GameTeamV;

    open spec fn deep_view(&self) -> GameTeamV {
        self.view()
    }
}

impl Clone for GameTeam {
    /// A clone carries the same model.
    fn clone(&self) -> (r: Self)
        ensures
            r@ == self@,
    {
        GameTeam {
            score: self.score,
            team: self.team.clone(),
            league_record: self.league_record.clone(),
        }
    }
}

/// The model of the default side: no score, default team and record.
pub open spec fn default_game_team() -> GameTeamV {
    GameTeamV { score: None, team: default_team(), league_record: default_record() }
}

impl Default for GameTeam {
    /// The default side: no score yet, default team and record.
    fn default() -> (r: Self)
        ensures
            r@ == default_game_team(),
    {
        GameTeam { score: None, team: Team::default(), league_record: Record::default() }
    }
}

/// The mathematical model of a `GameTeams`.
pub struct GameTeamsV {
    pub away: GameTeamV,
    pub home: GameTeamV,
}

impl View for GameTeams {
    type V = GameTeamsV;

    open spec fn view(&self) -> GameTeamsV {
        GameTeamsV { away: self.away@, home: self.home@ }
    }
}

impl DeepView for GameTeams {
    type V = GameTeamsV;

    open spec fn deep_view(&self) -> GameTeamsV {
        self.view()
    }
}

impl Clone for GameTeams {
    /// A clone carries the same model.
    fn clone(&self) -> (r: Self)
        ensures
            r@ == self@,
    {
        GameTeams { away: self.away.clone(), home: self.home.clone() }
    }
}

/// The model of the default pair of sides.
pub open spec fn default_game_teams() -> GameTeamsV {
    GameTeamsV { away: default_game_team(), home: default_game_team() }
}

impl Default for GameTeams {
    /// The default pair of sides.
    fn default() -> (r: Self)
        ensures
            r@ == default_game_teams(),
    {
        GameTeams { away: GameTeam::default(), home: GameTeam::default() }
    }
}

/// The mathematical model of a `Lineup`.
pub struct LineupV {
    pub home_players: Seq<PlayerV>,
    pub away_players: Seq<PlayerV>,
}

impl View for Lineup {
    type V = LineupV;

    open spec fn view(&self) -> LineupV {
        LineupV {
            home_players: self.home_players.deep_view(),
            away_players: self.away_players.deep_view(),
        }
    }
}

impl DeepView for Lineup {
    type V = LineupV;

    open spec fn deep_view(&self) -> LineupV {
        self.view()
    }
}

/// The model of the default lineup: no players on either side.
pub open spec fn default_lineup() -> LineupV {
    LineupV { home_players: Seq::<PlayerV>::empty(), away_players: Seq::<PlayerV>::empty() }
}

impl Clone for Lineup {
    /// A clone carries the same model.
    fn clone(&self) -> (r: Self)
        ensures
            r@ == self@,
    {
        let r = Lineup {
            home_players: self.home_players.clone(),
            away_players: self.away_players.clone(),
        };
        proof {
            assert forall|i: int| 0 <= i < self.home_players@.len() implies r.home_players@[i]@
                == self.home_players@[i]@ by {}
            assert forall|i: int| 0 <= i < self.away_players@.len() implies r.away_players@[i]@
                == self.away_players@[i]@ by {}
            assert(r.home_players.deep_view() =~= self.home_players.deep_view());
            assert(r.away_players.deep_view() =~= self.away_players.deep_view());
        }
        r
    }
}

impl Default for Lineup {
    /// The default lineup: no players on either side.
    fn default() -> (r: Self)
        ensures
            r@ == default_lineup(),
    {
        let r = Lineup { home_players: Vec::new(), away_players: Vec::new() };
        proof {
            assert(r.home_players.deep_view() =~= Seq::<PlayerV>::empty());
            assert(r.away_players.deep_view() =~= Seq::<PlayerV>::empty());
        }
        r
    }
}

/// The mathematical model of a `Game`.
pub struct GameV {
    pub game_pk: u32,
    pub link: Seq<char>,
    pub game_type: GameTypes,
    pub teams: GameTeamsV,
    pub status: GameStatusV,
    pub linescore: LinescoreV,
    pub scoring_plays: Seq<PlayV>,
    pub previous_play: PlayV,
    pub home_runs: Seq<PlayV>,
    pub lineups: LineupV,
}

impl View for Game {
    type V = GameV;

    open spec fn view(&self) -> GameV {
        GameV {
            game_pk: self.game_pk,
            link: self.link@,
            game_type: self.game_type,
            teams: self.teams@,
            status: self.status@,
            linescore: self.linescore@,
            scoring_plays: self.scoring_plays.deep_view(),
            previous_play: self.previous_play@,
            home_runs: self.home_runs.deep_view(),
            lineups: self.lineups@,
        }
    }
}

impl DeepView for Game {
    type V = GameV;

    open spec fn deep_view(&self) -> GameV {
        self.view()
    }
}

impl Clone for Game {
    /// A clone carries the same model.
    fn clone(&self) -> (r: Self)
        ensures
            r@ == self@,
    {
        let r = Game {
            game_pk: self.game_pk,
            link: self.link.clone(),
            game_type: self.game_type,
            teams: self.teams.clone(),
            status: self.status.clone(),
            linescore: self.linescore.clone(),
            scoring_plays: self.scoring_plays.clone(),
            previous_play: self.previous_play.clone(),
            home_runs: self.home_runs.clone(),
            lineups: self.lineups.clone(),
        };
        proof {
            assert forall|i: int| 0 <= i < self.scoring_plays@.len() implies r.scoring_plays@[i]@
                == self.scoring_plays@[i]@ by {}
            assert forall|i: int| 0 <= i < self.home_runs@.len() implies r.home_runs@[i]@
                == self.home_runs@[i]@ by {}
            assert(r.scoring_plays.deep_view() =~= self.scoring_plays.deep_view());
            assert(r.home_runs.deep_view() =~= self.home_runs.deep_view());
        }
        r
    }
}

impl Default for Game {
    /// The default game: id zero, empty texts, no plays, no players.
    fn default() -> (r: Self)
        ensures
            r.game_pk == 0,
            r.link@ == Seq::<char>::empty(),
            r.game_type == GameTypes::R,
            r.teams@ == default_game_teams(),
            r.status@ == default_game_status(),
            r.linescore@ == default_linescore(),
            r.scoring_plays@.len() == 0,
            r.previous_play@ == default_play(),
            r.home_runs@.len() == 0,
            r.lineups@ == default_lineup(),
    {
        Game {
            game_pk: 0,
            link: String::new(),
            game_type: GameTypes::default(),
            teams: GameTeams::default(),
            status: GameStatus::default(),
            linescore: Linescore::default(),
            scoring_plays: Vec::new(),
            previous_play: Play::default(),
            home_runs: Vec::new(),
            lineups: Lineup::default(),
        }
    }
}

/// The score block of a game: its id, then one "name: runs" line for
/// the away and the home side.
pub open spec fn score_text(g: GameV) -> Seq<char> {
    dec_digits(g.game_pk as int) + "\n"@ + g.teams.away.team.name + ": "@ + dec_digits(
        score_or_zero(g.teams.away.score) as int,
    ) + "\n"@ + g.teams.home.team.name + ": "@ + dec_digits(
        score_or_zero(g.teams.home.score) as int,
    )
}

/// A side's score, or zero where none was reported yet.
pub open spec fn score_or_zero(s: Option<u8>) -> u8 {
    match s {
        Some(n) => n,
        None => 0,
    }
}

/// The status line of a game: for a game in progress, the half-inning
/// and the inning number; otherwise the detailed state verbatim.
pub open spec fn game_status_text(g: GameV) -> Seq<char> {
    if g.status.detailed_state == "In Progress"@ {
        g.linescore.inning_state + " "@ + dec_digits(g.linescore.current_inning as int)
    } else {
        g.status.detailed_state
    }
}

impl Game {
    /// Renders the game's id and both sides' names and runs.
    pub fn score(&self) -> (r: String)
        ensures
            r@ == score_text(self@),
    {
        let mut s = u32_string(self.game_pk);
        s.append("\n");
        s.append(self.teams.away.team.name.as_str());
        s.append(": ");
        let away: u8 = match self.teams.away.score {
            Some(n) => n,
            None => 0,
        };
        let away_digits = u32_string(away as u32);
        s.append(away_digits.as_str());
        s.append("\n");
        s.append(self.teams.home.team.name.as_str());
        s.append(": ");
        let home: u8 = match self.teams.home.score {
            Some(n) => n,
            None => 0,
        };
        let home_digits = u32_string(home as u32);
        s.append(home_digits.as_str());
        proof {
            assert(s@ =~= score_text(self@));
        }
        s
    }
}

/// Renders the status line of a game: the half-inning and inning number
/// while the game is in progress, the detailed state otherwise.
pub fn game_status(game: &Game) -> (r: String)
    ensures
        r@ == game_status_text(game@),
{
    if eq_exact(game.status.detailed_state.as_str(), "In Progress") {
        let mut s = game.linescore.inning_state.clone();
        s.append(" ");
        let inning = u32_string(game.linescore.current_inning as u32);
        s.append(inning.as_str());
        proof {
            assert(s@ =~= game_status_text(game@));
        }
        s
    } else {
        game.status.detailed_state.clone()
    }
}

} // verus!
