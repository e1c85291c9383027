//! Passive play-by-play records as the API reports them.

use vstd::prelude::*;

use crate::players::{default_player, Player, PlayerV};

verus! {

/// One play: what happened, when, the count, and who was involved.
#[derive(Debug, PartialEq)]
pub struct Play {
    pub result: PlayResult,
    pub about: PlayAbout,
    pub count: PlayCount,
    pub matchup: PlayMatchup,
}

/// The outcome of a play.
#[derive(Debug, PartialEq)]
pub struct PlayResult {
    pub kind: String,
    pub event: String,
    pub description: String,
    pub rbi: u8,
    pub away_score: u8,
    pub home_score: u8,
}

/// When in the game a play happened.
#[derive(Debug, PartialEq)]
pub struct PlayAbout {
    pub half_inning: String,
    pub inning: u8,
}

/// The ball-strike-out count at a play.
#[derive(Clone, Copy, Debug, PartialEq, Eq, Structural)]
pub struct PlayCount {
    pub balls: u8,
    pub strikes: u8,
    pub outs: u8,
}

/// The batter and pitcher of a play.
#[derive(Debug, PartialEq)]
pub struct PlayMatchup {
    pub batter: Player,
    pub pitcher: Player,
}

/// The mathematical model of a `PlayResult`.
pub struct PlayResultV {
    pub kind: Seq<char>,
    pub event: Seq<char>,
    pub description: Seq<char>,
    pub rbi: u8,
    pub away_score: u8,
    pub home_score: u8,
}

impl View for PlayResult {
    type V = PlayResultV;

    open spec fn view(&self) -> PlayResultV {
        PlayResultV {
            kind: self.kind@,
            event: self.event@,
            description: self.description@,
            rbi: self.rbi,
            away_score: self.away_score,
            home_score: self.home_score,
        }
    }
}

impl DeepView for PlayResult {
    type V = PlayResultV;

    open spec fn deep_view(&self) -> PlayResultV {
        self.view()
    }
}

/// The model of the default play outcome: empty texts, zero scores.
pub open spec fn default_play_result() -> PlayResultV {
    PlayResultV {
        kind: Seq::<char>::empty(),
        event: Seq::<char>::empty(),
        description: Seq::<char>::empty(),
        rbi: 0,
        away_score: 0,
        home_score: 0,
    }
}

impl Clone for PlayResult {
    /// A clone carries the same model.
    fn clone(&self) -> (r: Self)
        ensures
            r@ == self@,
    {
        PlayResult {
            kind: self.kind.clone(),
            event: self.event.clone(),
            description: self.description.clone(),
            rbi: self.rbi,
            away_score: self.away_score,
            home_score: self.home_score,
        }
    }
}

impl Default for PlayResult {
    /// The default play outcome: empty texts, zero scores.
    fn default() -> (r: Self)
        ensures
            r@ == default_play_result(),
    {
        PlayResult {
            kind: String::new(),
            event: String::new(),
            description: String::new(),
            rbi: 0,
            away_score: 0,
            home_score: 0,
        }
    }
}

/// The mathematical model of a `PlayAbout`.
pub struct PlayAboutV {
    pub half_inning: Seq<char>,
    pub inning: u8,
}

impl View for PlayAbout {
    type V = PlayAboutV;

    open spec fn view(&self) -> PlayAboutV {
        PlayAboutV { half_inning: self.half_inning@, inning: self.inning }
    }
}

impl DeepView for PlayAbout {
    type V = PlayAboutV;

    open spec fn deep_view(&self) -> PlayAboutV {
        self.view()
    }
}

/// The model of the default play position: empty half, inning zero.
pub open spec fn default_play_about() -> PlayAboutV {
    PlayAboutV { half_inning: Seq::<char>::empty(), inning: 0 }
}

impl Clone for PlayAbout {
    /// A clone carries the same model.
    fn clone(&self) -> (r: Self)
        ensures
            r@ == self@,
    {
        PlayAbout { half_inning: self.half_inning.clone(), inning: self.inning }
    }
}

impl Default for PlayAbout {
    /// The default play position: empty half, inning zero.
    fn default() -> (r: Self)
        ensures
            r@ == default_play_about(),
    {
        PlayAbout { half_inning: String::new(), inning: 0 }
    }
}

impl Default for PlayCount {
    /// The default count: no balls, strikes or outs.
    fn default() -> (r: Self)
        ensures
            r == (PlayCount { balls: 0, strikes: 0, outs: 0 }),
    {
        PlayCount { balls: 0, strikes: 0, outs: 0 }
    }
}

/// The mathematical model of a `PlayMatchup`.
pub struct PlayMatchupV {
    pub batter: PlayerV,
    pub pitcher: PlayerV,
}

impl View for PlayMatchup {
    type V = PlayMatchupV;

    open spec fn view(&self) -> PlayMatchupV {
        PlayMatchupV { batter: self.batter@, pitcher: self.pitcher@ }
    }
}

impl DeepView for PlayMatchup {
    type V = PlayMatchupV;

    open spec fn deep_view(&self) -> PlayMatchupV {
        self.view()
    }
}

/// The model of the default matchup: two default players.
pub open spec fn default_play_matchup() -> PlayMatchupV {
    PlayMatchupV { batter: default_player(), pitcher: default_player() }
}

impl Clone for PlayMatchup {
    /// A clone carries the same model.
    fn clone(&self) -> (r: Self)
        ensures
            r@ == self@,
    {
        PlayMatchup { batter: self.batter.clone(), pitcher: self.pitcher.clone() }
    }
}

impl Default for PlayMatchup {
    /// The default matchup: two default players.
    fn default() -> (r: Self)
        ensures
            r@ == default_play_matchup(),
    {
        PlayMatchup { batter: Player::default(), pitcher: Player::default() }
    }
}

/// The mathematical model of a `Play`.
pub struct PlayV {
    pub result: PlayResultV,
    pub about: PlayAboutV,
    pub count: PlayCount,
    pub matchup: PlayMatchupV,
}

impl View for Play {
    type V = PlayV;

    open spec fn view(&self) -> PlayV {
        PlayV {
            result: self.result@,
            about: self.about@,
            count: self.count,
            matchup: self.matchup@,
        }
    }
}

impl DeepView for Play {
    type V = PlayV;

    open spec fn deep_view(&self) -> PlayV {
        self.view()
    }
}

/// The model of the default play.
pub open spec fn default_play() -> PlayV {
    PlayV {
        result: default_play_result(),
        about: default_play_about(),
        count: PlayCount { balls: 0, strikes: 0, outs: 0 },
        matchup: default_play_matchup(),
    }
}

impl Clone for Play {
    /// A clone carries the same model.
    fn clone(&self) -> (r: Self)
        ensures
            r@ == self@,
    {
        Play {
            result: self.result.clone(),
            about: self.about.clone(),
            count: self.count,
            matchup: self.matchup.clone(),
        }
    }
}

impl Default for Play {
    /// The default play.
    fn default() -> (r: Self)
        ensures
            r@ == default_play(),
    {
        Play {
            result: PlayResult::default(),
            about: PlayAbout::default(),
            count: PlayCount::default(),
            matchup: PlayMatchup::default(),
        }
    }
}

} // verus!
