//! The leaders response: one ranked list of players per stat category.

use vstd::prelude::*;

use crate::players::{default_player, Player, PlayerV};
use crate::stats::types::LeagueLeaderTypes;

verus! {

/// The leaders response: one list per requested category.
#[derive(Debug, PartialEq)]
pub struct StatsLeadersResponse {
    pub league_leaders: Vec<LeaderCategory>,
}

/// The ranked leaders of one stat category.
#[derive(Debug, PartialEq)]
pub struct LeaderCategory {
    /// Stat category for the leaders
    pub leader_category: LeagueLeaderTypes,
    /// Season the stats come from
    pub season: Option<String>,
    /// Leaders in the category
    pub leaders: Vec<Leader>,
}

/// One ranked leader.
#[derive(Debug, PartialEq)]
pub struct Leader {
    /// Rank among other leaders
    pub rank: u32,
    /// Represents the value of the leader category (e.g. Number of home runs)
    pub value: String,
    /// Player associated with rank and value
    pub person: Player,
    /// Season the stats come from
    pub season: String,
    /// Number of teams the player played on to accumulate the stat
    pub num_teams: u32,
}

/// The mathematical model of a `Leader`.
pub struct LeaderV {
    pub rank: u32,
    pub value: Seq<char>,
    pub person: PlayerV,
    pub season: Seq<char>,
    pub num_teams: u32,
}

impl View for Leader {
    type V = LeaderV;

    open spec fn view(&self) -> LeaderV {
        LeaderV {
            rank: self.rank,
            value: self.value@,
            person: self.person@,
            season: self.season@,
            num_teams: self.num_teams,
        }
    }
}

impl DeepView for Leader {
    type V = LeaderV;

    open spec fn deep_view(&self) -> LeaderV {
        self.view()
    }
}

/// The model of the default leader: rank zero, empty texts.
pub open spec fn default_leader() -> LeaderV {
    LeaderV {
        rank: 0,
        value: Seq::<char>::empty(),
        person: default_player(),
        season: Seq::<char>::empty(),
        num_teams: 0,
    }
}

impl Default for Leader {
    /// The default leader: rank zero, empty texts.
    fn default() -> (r: Self)
        ensures
            r@ == default_leader(),
    {
        Leader {
            rank: 0,
            value: String::new(),
            person: Player::default(),
            season: String::new(),
            num_teams: 0,
        }
    }
}

/// The mathematical model of a `LeaderCategory`.
pub struct LeaderCategoryV {
    pub leader_category: LeagueLeaderTypes,
    pub season: Option<Seq<char>>,
    pub leaders: Seq<LeaderV>,
}

impl View for LeaderCategory {
    type V = LeaderCategoryV;

    open spec fn view(&self) -> LeaderCategoryV {
        LeaderCategoryV {
            leader_category: self.leader_category,
            season: self.season.deep_view(),
            leaders: self.leaders.deep_view(),
        }
    }
}

impl DeepView for LeaderCategory {
    type V = LeaderCategoryV;

    open spec fn deep_view(&self) -> LeaderCategoryV {
        self.view()
    }
}

impl View for StatsLeadersResponse {
    type V = Seq<LeaderCategoryV>;

    open spec fn view(&self) -> Seq<LeaderCategoryV> {
        self.league_leaders.deep_view()
    }
}

impl DeepView for StatsLeadersResponse {
    type V = Seq<LeaderCategoryV>;

    open spec fn deep_view(&self) -> Seq<LeaderCategoryV> {
        self.view()
    }
}

} // verus!
