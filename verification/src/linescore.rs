//! Passive inning-by-inning records as the API reports them.

use vstd::prelude::*;

use crate::players::{default_player, Player, PlayerV};

verus! {

/// The inning-by-inning state of a game.
#[derive(Debug, PartialEq)]
pub struct Linescore {
    pub current_inning: u8,
    pub current_inning_ordinal: String,
    pub inning_state: String,
    pub inning_half: String,
    pub is_top_inning: bool,
    pub scheduled_innings: u8,
    pub innings: Vec<Inning>,
    pub defense: Defense,
    pub offense: Offense,
    pub teams: Score,
    pub balls: u8,
    pub strikes: u8,
    pub outs: u8,
}

/// One inning's lines for both teams.
#[derive(Debug, PartialEq)]
pub struct Inning {
    pub num: u8,
    pub ordinal_num: String,
    pub home: RunsHitsErrorsLOB,
    pub away: RunsHitsErrorsLOB,
}

/// Both teams' totals.
#[derive(Clone, Copy, Debug, PartialEq, Eq, Structural)]
pub struct Score {
    pub away: RunsHitsErrorsLOB,
    pub home: RunsHitsErrorsLOB,
}

/// Runs, hits, errors and runners left on base.
#[derive(Clone, Copy, Debug, PartialEq, Eq, Structural)]
pub struct RunsHitsErrorsLOB {
    pub runs: u8,
    pub hits: u8,
    pub errors: u8,
    pub left_on_base: u8,
}

/// The fielding side's players.
#[derive(Debug, PartialEq)]
pub struct Defense {
    pub pitcher: Player,
    pub catcher: Player,
    pub first: Player,
    pub second: Player,
    pub third: Player,
    pub shortstop: Player,
    pub left: Player,
    pub center: Player,
    pub right: Player,
    pub batter: Player,
    pub on_deck: Player,
    pub in_hole: Player,
}

/// The batting side's players.
#[derive(Debug, PartialEq)]
pub struct Offense {
    pub batter: Player,
    pub on_deck: Player,
    pub in_hole: Player,
    pub pitcher: Player,
}

/// The model of the default line: all four numbers zero.
pub open spec fn default_rhel() -> RunsHitsErrorsLOB {
    RunsHitsErrorsLOB { runs: 0, hits: 0, errors: 0, left_on_base: 0 }
}

impl Default for RunsHitsErrorsLOB {
    /// The default line: all four numbers zero.
    fn default() -> (r: Self)
        ensures
            r == default_rhel(),
    {
        RunsHitsErrorsLOB { runs: 0, hits: 0, errors: 0, left_on_base: 0 }
    }
}

/// The model of the default score: both lines zero.
pub open spec fn default_score() -> Score {
    Score { away: default_rhel(), home: default_rhel() }
}

impl Default for Score {
    /// The default score: both lines zero.
    fn default() -> (r: Self)
        ensures
            r == default_score(),
    {
        Score { away: RunsHitsErrorsLOB::default(), home: RunsHitsErrorsLOB::default() }
    }
}

/// The mathematical model of an `Inning`.
pub struct InningV {
    pub num: u8,
    pub ordinal_num: Seq<char>,
    pub home: RunsHitsErrorsLOB,
    pub away: RunsHitsErrorsLOB,
}

impl View for Inning {
    type V = InningV;

    open spec fn view(&self) -> InningV {
        InningV {
            num: self.num,
            ordinal_num: self.ordinal_num@,
            home: self.home,
            away: self.away,
        }
    }
}

impl DeepView for Inning {
    type V = InningV;

    open spec fn deep_view(&self) -> InningV {
        self.view()
    }
}

/// The model of the default inning.
pub open spec fn default_inning() -> InningV {
    InningV {
        num: 0,
        ordinal_num: Seq::<char>::empty(),
        home: default_rhel(),
        away: default_rhel(),
    }
}

impl Clone for Inning {
    /// A clone carries the same model.
    fn clone(&self) -> (r: Self)
        ensures
            r@ == self@,
    {
        Inning {
            num: self.num,
            ordinal_num: self.ordinal_num.clone(),
            home: self.home,
            away: self.away,
        }
    }
}

impl Default for Inning {
    /// The default inning.
    fn default() -> (r: Self)
        ensures
            r@ == default_inning(),
    {
        Inning {
            num: 0,
            ordinal_num: String::new(),
            home: RunsHitsErrorsLOB::default(),
            away: RunsHitsErrorsLOB::default(),
        }
    }
}

/// The mathematical model of a `Defense`.
pub struct DefenseV {
    pub pitcher: PlayerV,
    pub catcher: PlayerV,
    pub first: PlayerV,
    pub second: PlayerV,
    pub third: PlayerV,
    pub shortstop: PlayerV,
    pub left: PlayerV,
    pub center: PlayerV,
    pub right: PlayerV,
    pub batter: PlayerV,
    pub on_deck: PlayerV,
    pub in_hole: PlayerV,
}

impl View for Defense {
    type V = DefenseV;

    open spec fn view(&self) -> DefenseV {
        DefenseV {
            pitcher: self.pitcher@,
            catcher: self.catcher@,
            first: self.first@,
            second: self.second@,
            third: self.third@,
            shortstop: self.shortstop@,
            left: self.left@,
            center: self.center@,
            right: self.right@,
            batter: self.batter@,
            on_deck: self.on_deck@,
            in_hole: self.in_hole@,
        }
    }
}

impl DeepView for Defense {
    type V = DefenseV;

    open spec fn deep_view(&self) -> DefenseV {
        self.view()
    }
}

/// The model of the default defense: default players everywhere.
pub open spec fn default_defense() -> DefenseV {
    DefenseV {
        pitcher: default_player(),
        catcher: default_player(),
        first: default_player(),
        second: default_player(),
        third: default_player(),
        shortstop: default_player(),
        left: default_player(),
        center: default_player(),
        right: default_player(),
        batter: default_player(),
        on_deck: default_player(),
        in_hole: default_player(),
    }
}

impl Clone for Defense {
    /// A clone carries the same model.
    fn clone(&self) -> (r: Self)
        ensures
            r@ == self@,
    {
        Defense {
            pitcher: self.pitcher.clone(),
            catcher: self.catcher.clone(),
            first: self.first.clone(),
            second: self.second.clone(),
            third: self.third.clone(),
            shortstop: self.shortstop.clone(),
            left: self.left.clone(),
            center: self.center.clone(),
            right: self.right.clone(),
            batter: self.batter.clone(),
            on_deck: self.on_deck.clone(),
            in_hole: self.in_hole.clone(),
        }
    }
}

impl Default for Defense {
    /// The default defense: default players everywhere.
    fn default() -> (r: Self)
        ensures
            r@ == default_defense(),
    {
        Defense {
            pitcher: Player::default(),
            catcher: Player::default(),
            first: Player::default(),
            second: Player::default(),
            third: Player::default(),
            shortstop: Player::default(),
            left: Player::default(),
            center: Player::default(),
            right: Player::default(),
            batter: Player::default(),
            on_deck: Player::default(),
            in_hole: Player::default(),
        }
    }
}

/// The mathematical model of an `Offense`.
pub struct OffenseV {
    pub batter: PlayerV,
    pub on_deck: PlayerV,
    pub in_hole: PlayerV,
    pub pitcher: PlayerV,
}

impl View for Offense {
    type V = OffenseV;

    open spec fn view(&self) -> OffenseV {
        OffenseV {
            batter: self.batter@,
            on_deck: self.on_deck@,
            in_hole: self.in_hole@,
            pitcher: self.pitcher@,
        }
    }
}

impl DeepView for Offense {
    type V = OffenseV;

    open spec fn deep_view(&self) -> OffenseV {
        self.view()
    }
}

/// The model of the default offense: default players everywhere.
pub open spec fn default_offense() -> OffenseV {
    OffenseV {
        batter: default_player(),
        on_deck: default_player(),
        in_hole: default_player(),
        pitcher: default_player(),
    }
}

impl Clone for Offense {
    /// A clone carries the same model.
    fn clone(&self) -> (r: Self)
        ensures
            r@ == self@,
    {
        Offense {
            batter: self.batter.clone(),
            on_deck: self.on_deck.clone(),
            in_hole: self.in_hole.clone(),
            pitcher: self.pitcher.clone(),
        }
    }
}

impl Default for Offense {
    /// The default offense: default players everywhere.
    fn default() -> (r: Self)
        ensures
            r@ == default_offense(),
    {
        Offense {
            batter: Player::default(),
            on_deck: Player::default(),
            in_hole: Player::default(),
            pitcher: Player::default(),
        }
    }
}

/// The mathematical model of a `Linescore`.
pub struct LinescoreV {
    pub current_inning: u8,
    pub current_inning_ordinal: Seq<char>,
    pub inning_state: Seq<char>,
    pub inning_half: Seq<char>,
    pub is_top_inning: bool,
    pub scheduled_innings: u8,
    pub innings: Seq<InningV>,
    pub defense: DefenseV,
    pub offense: OffenseV,
    pub teams: Score,
    pub balls: u8,
    pub strikes: u8,
    pub outs: u8,
}

impl View for Linescore {
    type V = LinescoreV;

    open spec fn view(&self) -> LinescoreV {
        LinescoreV {
            current_inning: self.current_inning,
            current_inning_ordinal: self.current_inning_ordinal@,
            inning_state: self.inning_state@,
            inning_half: self.inning_half@,
            is_top_inning: self.is_top_inning,
            scheduled_innings: self.scheduled_innings,
            innings: self.innings.deep_view(),
            defense: self.defense@,
            offense: self.offense@,
            teams: self.teams,
            balls: self.balls,
            strikes: self.strikes,
            outs: self.outs,
        }
    }
}

impl DeepView for Linescore {
    type V = LinescoreV;

    open spec fn deep_view(&self) -> LinescoreV {
        self.view()
    }
}

/// The model of the default linescore: zeros, empty texts, no innings.
pub open spec fn default_linescore() -> LinescoreV {
    LinescoreV {
        current_inning: 0,
        current_inning_ordinal: Seq::<char>::empty(),
        inning_state: Seq::<char>::empty(),
        inning_half: Seq::<char>::empty(),
        is_top_inning: false,
        scheduled_innings: 0,
        innings: Seq::<InningV>::empty(),
        defense: default_defense(),
        offense: default_offense(),
        teams: default_score(),
        balls: 0,
        strikes: 0,
        outs: 0,
    }
}

impl Clone for Linescore {
    /// A clone carries the same model.
    fn clone(&self) -> (r: Self)
        ensures
            r@ == self@,
    {
        let r = Linescore {
            current_inning: self.current_inning,
            current_inning_ordinal: self.current_inning_ordinal.clone(),
            inning_state: self.inning_state.clone(),
            inning_half: self.inning_half.clone(),
            is_top_inning: self.is_top_inning,
            scheduled_innings: self.scheduled_innings,
            innings: self.innings.clone(),
            defense: self.defense.clone(),
            offense: self.offense.clone(),
            teams: self.teams,
            balls: self.balls,
            strikes: self.strikes,
            outs: self.outs,
        };
        proof {
            assert forall|i: int| 0 <= i < self.innings@.len() implies r.innings@[i]@
                == self.innings@[i]@ by {}
            assert(r.innings.deep_view() =~= self.innings.deep_view());
        }
        r
    }
}

impl Default for Linescore {
    /// The default linescore: zeros, empty texts, no innings.
    fn default() -> (r: Self)
        ensures
            r@ == default_linescore(),
    {
        let r = Linescore {
            current_inning: 0,
            current_inning_ordinal: String::new(),
            inning_state: String::new(),
            inning_half: String::new(),
            is_top_inning: false,
            scheduled_innings: 0,
            innings: Vec::new(),
            defense: Defense::default(),
            offense: Offense::default(),
            teams: Score::default(),
            balls: 0,
            strikes: 0,
            outs: 0,
        };
        proof {
            assert(r.innings.deep_view() =~= Seq::<InningV>::empty());
        }
        r
    }
}

} // verus!
