//! The thirty teams, their numeric ids and short codes, and the
//! passive team records the API returns.

use vstd::prelude::*;

use crate::error::MLBStatsError;
use crate::text::{eq_fold, fold_lower, lemma_fold_idempotent, lemma_fold_raise, raise_upper};
use crate::types::{IdNameLink, IdNameLinkV};

verus! {

/// A passive record of one team as the API reports it.
#[derive(Debug, PartialEq)]
pub struct Team {
    pub all_star_status: String,
    pub id: u32,
    pub name: String,
    pub link: String,
    pub venue: IdNameLink,
    pub team_code: String,
    pub file_code: String,
    pub team_name: String,
    pub location_name: String,
    pub first_year_of_play: String,
    pub league: IdNameLink,
    pub division: IdNameLink,
    pub sport: IdNameLink,
    pub short_name: String,
    pub franchise_name: String,
    pub club_name: String,
    pub active: bool,
}

/// The mathematical model of a `Team`.
pub struct TeamV {
    pub all_star_status: Seq<char>,
    pub id: u32,
    pub name: Seq<char>,
    pub link: Seq<char>,
    pub venue: IdNameLinkV,
    pub team_code: Seq<char>,
    pub file_code: Seq<char>,
    pub team_name: Seq<char>,
    pub location_name: Seq<char>,
    pub first_year_of_play: Seq<char>,
    pub league: IdNameLinkV,
    pub division: IdNameLinkV,
    pub sport: IdNameLinkV,
    pub short_name: Seq<char>,
    pub franchise_name: Seq<char>,
    pub club_name: Seq<char>,
    pub active: bool,
}

impl View for Team {
    type V = TeamV;

    open spec fn view(&self) -> TeamV {
        TeamV {
            all_star_status: self.all_star_status@,
            id: self.id,
            name: self.name@,
            link: self.link@,
            venue: self.venue@,
            team_code: self.team_code@,
            file_code: self.file_code@,
            team_name: self.team_name@,
            location_name: self.location_name@,
            first_year_of_play: self.first_year_of_play@,
            league: self.league@,
            division: self.division@,
            sport: self.sport@,
            short_name: self.short_name@,
            franchise_name: self.franchise_name@,
            club_name: self.club_name@,
            active: self.active,
        }
    }
}

impl DeepView for Team {
    type V = TeamV;

    open spec fn deep_view(&self) -> TeamV {
        self.view()
    }
}

impl Clone for Team {
    /// A clone carries the same model.
    fn clone(&self) -> (r: Self)
        ensures
            r@ == self@,
    {
        Team {
            all_star_status: self.all_star_status.clone(),
            id: self.id,
            name: self.name.clone(),
            link: self.link.clone(),
            venue: self.venue.clone(),
            team_code: self.team_code.clone(),
            file_code: self.file_code.clone(),
            team_name: self.team_name.clone(),
            location_name: self.location_name.clone(),
            first_year_of_play: self.first_year_of_play.clone(),
            league: self.league.clone(),
            division: self.division.clone(),
            sport: self.sport.clone(),
            short_name: self.short_name.clone(),
            franchise_name: self.franchise_name.clone(),
            club_name: self.club_name.clone(),
            active: self.active,
        }
    }
}

/// The model of the default team: zero id, every text empty, inactive.
pub open spec fn default_team() -> TeamV {
    TeamV {
        all_star_status: Seq::<char>::empty(),
        id: 0,
        name: Seq::<char>::empty(),
        link: Seq::<char>::empty(),
        venue: crate::types::default_id_name_link(),
        team_code: Seq::<char>::empty(),
        file_code: Seq::<char>::empty(),
        team_name: Seq::<char>::empty(),
        location_name: Seq::<char>::empty(),
        first_year_of_play: Seq::<char>::empty(),
        league: crate::types::default_id_name_link(),
        division: crate::types::default_id_name_link(),
        sport: crate::types::default_id_name_link(),
        short_name: Seq::<char>::empty(),
        franchise_name: Seq::<char>::empty(),
        club_name: Seq::<char>::empty(),
        active: false,
    }
}

impl Default for Team {
    /// The default team record: zero id, every text empty, inactive.
    fn default() -> (r: Self)
        ensures
            r@ == default_team(),
    {
        Team {
            all_star_status: String::new(),
            id: 0,
            name: String::new(),
            link: String::new(),
            venue: IdNameLink::default(),
            team_code: String::new(),
            file_code: String::new(),
            team_name: String::new(),
            location_name: String::new(),
            first_year_of_play: String::new(),
            league: IdNameLink::default(),
            division: IdNameLink::default(),
            sport: IdNameLink::default(),
            short_name: String::new(),
            franchise_name: String::new(),
            club_name: String::new(),
            active: false,
        }
    }
}

/// The flat team list the API returns.
#[derive(Debug, PartialEq)]
pub struct TeamsResponse {
    pub teams: Vec<Team>,
}

impl View for TeamsResponse {
    type V = Seq<TeamV>;

    open spec fn view(&self) -> Seq<TeamV> {
        self.teams.deep_view()
    }
}

impl DeepView for TeamsResponse {
    type V = Seq<TeamV>;

    open spec fn deep_view(&self) -> Seq<TeamV> {
        self.view()
    }
}

#[derive(Clone, Copy, PartialEq, Eq, Structural, Debug, Hash)]
pub enum MLBTeam {
    ANA,
    ARI,
    ATL,
    BAL,
    BOS,
    CHC,
    CIN,
    CLE,
    COL,
    CWS,
    DET,
    HOU,
    KC,
    LA,
    MIA,
    MIL,
    MIN,
    NYM,
    NYY,
    OAK,
    PHI,
    PIT,
    SD,
    SEA,
    SF,
    STL,
    TB,
    TEX,
    TOR,
    WAS,
}

/// The numeric id the API assigns to each team.
pub open spec fn team_id(t: MLBTeam) -> u32 {
    match t {
        MLBTeam::ANA => 108,
        MLBTeam::ARI => 109,
        MLBTeam::ATL => 144,
        MLBTeam::BAL => 110,
        MLBTeam::BOS => 111,
        MLBTeam::CHC => 112,
        MLBTeam::CIN => 113,
        MLBTeam::CLE => 114,
        MLBTeam::COL => 115,
        MLBTeam::CWS => 145,
        MLBTeam::DET => 116,
        MLBTeam::HOU => 117,
        MLBTeam::KC => 118,
        MLBTeam::LA => 119,
        MLBTeam::MIA => 146,
        MLBTeam::MIL => 158,
        MLBTeam::MIN => 142,
        MLBTeam::NYM => 121,
        MLBTeam::NYY => 147,
        MLBTeam::OAK => 133,
        MLBTeam::PHI => 143,
        MLBTeam::PIT => 134,
        MLBTeam::SD => 135,
        MLBTeam::SEA => 136,
        MLBTeam::SF => 137,
        MLBTeam::STL => 138,
        MLBTeam::TB => 139,
        MLBTeam::TEX => 140,
        MLBTeam::TOR => 141,
        MLBTeam::WAS => 120,
    }
}

/// The team a numeric id names, if any.
pub open spec fn team_from_id(id: u32) -> Option<MLBTeam> {
    if id == 108 {
        Some(MLBTeam::ANA)
    } else if id == 109 {
        Some(MLBTeam::ARI)
    } else if id == 144 {
        Some(MLBTeam::ATL)
    } else if id == 110 {
        Some(MLBTeam::BAL)
    } else if id == 111 {
        Some(MLBTeam::BOS)
    } else if id == 112 {
        Some(MLBTeam::CHC)
    } else if id == 113 {
        Some(MLBTeam::CIN)
    } else if id == 114 {
        Some(MLBTeam::CLE)
    } else if id == 115 {
        Some(MLBTeam::COL)
    } else if id == 145 {
        Some(MLBTeam::CWS)
    } else if id == 116 {
        Some(MLBTeam::DET)
    } else if id == 117 {
        Some(MLBTeam::HOU)
    } else if id == 118 {
        Some(MLBTeam::KC)
    } else if id == 119 {
        Some(MLBTeam::LA)
    } else if id == 146 {
        Some(MLBTeam::MIA)
    } else if id == 158 {
        Some(MLBTeam::MIL)
    } else if id == 142 {
        Some(MLBTeam::MIN)
    } else if id == 121 {
        Some(MLBTeam::NYM)
    } else if id == 147 {
        Some(MLBTeam::NYY)
    } else if id == 133 {
        Some(MLBTeam::OAK)
    } else if id == 143 {
        Some(MLBTeam::PHI)
    } else if id == 134 {
        Some(MLBTeam::PIT)
    } else if id == 135 {
        Some(MLBTeam::SD)
    } else if id == 136 {
        Some(MLBTeam::SEA)
    } else if id == 137 {
        Some(MLBTeam::SF)
    } else if id == 138 {
        Some(MLBTeam::STL)
    } else if id == 139 {
        Some(MLBTeam::TB)
    } else if id == 140 {
        Some(MLBTeam::TEX)
    } else if id == 141 {
        Some(MLBTeam::TOR)
    } else if id == 120 {
        Some(MLBTeam::WAS)
    } else {
        None
    }
}

/// The canonical (lowercase) short code of each team.
pub open spec fn team_code(t: MLBTeam) -> Seq<char> {
    match t {
        MLBTeam::ANA => "ana"@,
        MLBTeam::ARI => "ari"@,
        MLBTeam::ATL => "atl"@,
        MLBTeam::BAL => "bal"@,
        MLBTeam::BOS => "bos"@,
        MLBTeam::CHC => "chc"@,
        MLBTeam::CIN => "cin"@,
        MLBTeam::CLE => "cle"@,
        MLBTeam::COL => "col"@,
        MLBTeam::CWS => "cws"@,
        MLBTeam::DET => "det"@,
        MLBTeam::HOU => "hou"@,
        MLBTeam::KC => "kc"@,
        MLBTeam::LA => "la"@,
        MLBTeam::MIA => "mia"@,
        MLBTeam::MIL => "mil"@,
        MLBTeam::MIN => "min"@,
        MLBTeam::NYM => "nym"@,
        MLBTeam::NYY => "nyy"@,
        MLBTeam::OAK => "oak"@,
        MLBTeam::PHI => "phi"@,
        MLBTeam::PIT => "pit"@,
        MLBTeam::SD => "sd"@,
        MLBTeam::SEA => "sea"@,
        MLBTeam::SF => "sf"@,
        MLBTeam::STL => "stl"@,
        MLBTeam::TB => "tb"@,
        MLBTeam::TEX => "tex"@,
        MLBTeam::TOR => "tor"@,
        MLBTeam::WAS => "was"@,
    }
}

/// The team a textual code names after ASCII case folding, if any.
pub open spec fn team_from_code(s: Seq<char>) -> Option<MLBTeam> {
    if fold_lower(s) == fold_lower("ana"@) {
        Some(MLBTeam::ANA)
    } else if fold_lower(s) == fold_lower("ari"@) {
        Some(MLBTeam::ARI)
    } else if fold_lower(s) == fold_lower("atl"@) {
        Some(MLBTeam::ATL)
    } else if fold_lower(s) == fold_lower("bal"@) {
        Some(MLBTeam::BAL)
    } else if fold_lower(s) == fold_lower("bos"@) {
        Some(MLBTeam::BOS)
    } else if fold_lower(s) == fold_lower("chc"@) {
        Some(MLBTeam::CHC)
    } else if fold_lower(s) == fold_lower("cin"@) {
        Some(MLBTeam::CIN)
    } else if fold_lower(s) == fold_lower("cle"@) {
        Some(MLBTeam::CLE)
    } else if fold_lower(s) == fold_lower("col"@) {
        Some(MLBTeam::COL)
    } else if fold_lower(s) == fold_lower("cws"@) {
        Some(MLBTeam::CWS)
    } else if fold_lower(s) == fold_lower("det"@) {
        Some(MLBTeam::DET)
    } else if fold_lower(s) == fold_lower("hou"@) {
        Some(MLBTeam::HOU)
    } else if fold_lower(s) == fold_lower("kc"@) {
        Some(MLBTeam::KC)
    } else if fold_lower(s) == fold_lower("la"@) {
        Some(MLBTeam::LA)
    } else if fold_lower(s) == fold_lower("mia"@) {
        Some(MLBTeam::MIA)
    } else if fold_lower(s) == fold_lower("mil"@) {
        Some(MLBTeam::MIL)
    } else if fold_lower(s) == fold_lower("min"@) {
        Some(MLBTeam::MIN)
    } else if fold_lower(s) == fold_lower("nym"@) {
        Some(MLBTeam::NYM)
    } else if fold_lower(s) == fold_lower("nyy"@) {
        Some(MLBTeam::NYY)
    } else if fold_lower(s) == fold_lower("oak"@) {
        Some(MLBTeam::OAK)
    } else if fold_lower(s) == fold_lower("phi"@) {
        Some(MLBTeam::PHI)
    } else if fold_lower(s) == fold_lower("pit"@) {
        Some(MLBTeam::PIT)
    } else if fold_lower(s) == fold_lower("sd"@) {
        Some(MLBTeam::SD)
    } else if fold_lower(s) == fold_lower("sea"@) {
        Some(MLBTeam::SEA)
    } else if fold_lower(s) == fold_lower("sf"@) {
        Some(MLBTeam::SF)
    } else if fold_lower(s) == fold_lower("stl"@) {
        Some(MLBTeam::STL)
    } else if fold_lower(s) == fold_lower("tb"@) {
        Some(MLBTeam::TB)
    } else if fold_lower(s) == fold_lower("tex"@) {
        Some(MLBTeam::TEX)
    } else if fold_lower(s) == fold_lower("tor"@) {
        Some(MLBTeam::TOR)
    } else if fold_lower(s) == fold_lower("was"@) {
        Some(MLBTeam::WAS)
    } else {
        None
    }
}

impl MLBTeam {
    /// The numeric id of the team.
    pub fn id(&self) -> (r: u32)
        ensures
            r == team_id(*self),
    {
        match &self {
            MLBTeam::ANA => 108,
            MLBTeam::ARI => 109,
            MLBTeam::ATL => 144,
            MLBTeam::BAL => 110,
            MLBTeam::BOS => 111,
            MLBTeam::CHC => 112,
            MLBTeam::CIN => 113,
            MLBTeam::CLE => 114,
            MLBTeam::COL => 115,
            MLBTeam::CWS => 145,
            MLBTeam::DET => 116,
            MLBTeam::HOU => 117,
            MLBTeam::KC => 118,
            MLBTeam::LA => 119,
            MLBTeam::MIA => 146,
            MLBTeam::MIL => 158,
            MLBTeam::MIN => 142,
            MLBTeam::NYM => 121,
            MLBTeam::NYY => 147,
            MLBTeam::OAK => 133,
            MLBTeam::PHI => 143,
            MLBTeam::PIT => 134,
            MLBTeam::SD => 135,
            MLBTeam::SEA => 136,
            MLBTeam::SF => 137,
            MLBTeam::STL => 138,
            MLBTeam::TB => 139,
            MLBTeam::TEX => 140,
            MLBTeam::TOR => 141,
            MLBTeam::WAS => 120,
        }
    }

    /// Converts a numeric id back to a team.
    pub fn try_from(value: u32) -> (r: Result<Self, MLBStatsError>)
        ensures
            match team_from_id(value) {
                Some(t) => r == Ok::<MLBTeam, MLBStatsError>(t),
                None => r == Err::<MLBTeam, MLBStatsError>(MLBStatsError::MLBTeamConversionError),
            },
    {
        match value {
            108 => Ok(MLBTeam::ANA),
            109 => Ok(MLBTeam::ARI),
            144 => Ok(MLBTeam::ATL),
            110 => Ok(MLBTeam::BAL),
            111 => Ok(MLBTeam::BOS),
            112 => Ok(MLBTeam::CHC),
            113 => Ok(MLBTeam::CIN),
            114 => Ok(MLBTeam::CLE),
            115 => Ok(MLBTeam::COL),
            145 => Ok(MLBTeam::CWS),
            116 => Ok(MLBTeam::DET),
            117 => Ok(MLBTeam::HOU),
            118 => Ok(MLBTeam::KC),
            119 => Ok(MLBTeam::LA),
            146 => Ok(MLBTeam::MIA),
            158 => Ok(MLBTeam::MIL),
            142 => Ok(MLBTeam::MIN),
            121 => Ok(MLBTeam::NYM),
            147 => Ok(MLBTeam::NYY),
            133 => Ok(MLBTeam::OAK),
            143 => Ok(MLBTeam::PHI),
            134 => Ok(MLBTeam::PIT),
            135 => Ok(MLBTeam::SD),
            136 => Ok(MLBTeam::SEA),
            137 => Ok(MLBTeam::SF),
            138 => Ok(MLBTeam::STL),
            139 => Ok(MLBTeam::TB),
            140 => Ok(MLBTeam::TEX),
            141 => Ok(MLBTeam::TOR),
            120 => Ok(MLBTeam::WAS),
            _ => Err(MLBStatsError::MLBTeamConversionError),
        }
    }

    /// Parses a short team code, case-insensitively.
    pub fn from_str(s: &str) -> (r: Result<Self, MLBStatsError>)
        ensures
            match team_from_code(s@) {
                Some(t) => r == Ok::<MLBTeam, MLBStatsError>(t),
                None => r matches Err(e) && e matches MLBStatsError::MLBConversionError(dom, i)
                    && dom@ == "FromStr"@ && i@ == s@,
            },
    {
        if eq_fold(s, "ana") {
            Ok(MLBTeam::ANA)
        } else if eq_fold(s, "ari") {
            Ok(MLBTeam::ARI)
        } else if eq_fold(s, "atl") {
            Ok(MLBTeam::ATL)
        } else if eq_fold(s, "bal") {
            Ok(MLBTeam::BAL)
        } else if eq_fold(s, "bos") {
            Ok(MLBTeam::BOS)
        } else if eq_fold(s, "chc") {
            Ok(MLBTeam::CHC)
        } else if eq_fold(s, "cin") {
            Ok(MLBTeam::CIN)
        } else if eq_fold(s, "cle") {
            Ok(MLBTeam::CLE)
        } else if eq_fold(s, "col") {
            Ok(MLBTeam::COL)
        } else if eq_fold(s, "cws") {
            Ok(MLBTeam::CWS)
        } else if eq_fold(s, "det") {
            Ok(MLBTeam::DET)
        } else if eq_fold(s, "hou") {
            Ok(MLBTeam::HOU)
        } else if eq_fold(s, "kc") {
            Ok(MLBTeam::KC)
        } else if eq_fold(s, "la") {
            Ok(MLBTeam::LA)
        } else if eq_fold(s, "mia") {
            Ok(MLBTeam::MIA)
        } else if eq_fold(s, "mil") {
            Ok(MLBTeam::MIL)
        } else if eq_fold(s, "min") {
            Ok(MLBTeam::MIN)
        } else if eq_fold(s, "nym") {
            Ok(MLBTeam::NYM)
        } else if eq_fold(s, "nyy") {
            Ok(MLBTeam::NYY)
        } else if eq_fold(s, "oak") {
            Ok(MLBTeam::OAK)
        } else if eq_fold(s, "phi") {
            Ok(MLBTeam::PHI)
        } else if eq_fold(s, "pit") {
            Ok(MLBTeam::PIT)
        } else if eq_fold(s, "sd") {
            Ok(MLBTeam::SD)
        } else if eq_fold(s, "sea") {
            Ok(MLBTeam::SEA)
        } else if eq_fold(s, "sf") {
            Ok(MLBTeam::SF)
        } else if eq_fold(s, "stl") {
            Ok(MLBTeam::STL)
        } else if eq_fold(s, "tb") {
            Ok(MLBTeam::TB)
        } else if eq_fold(s, "tex") {
            Ok(MLBTeam::TEX)
        } else if eq_fold(s, "tor") {
            Ok(MLBTeam::TOR)
        } else if eq_fold(s, "was") {
            Ok(MLBTeam::WAS)
        } else {
            Err(MLBStatsError::MLBConversionError("FromStr".to_owned(), s.to_owned()))
        }
    }
}

/// Law: the id of a team converts back to that team, and any spelling
/// of its code (after case folding) parses to that team.
#[verifier::rlimit(50)]
pub proof fn lemma_team_round_trip(t: MLBTeam, s: Seq<char>)
    requires
        fold_lower(s) == fold_lower(team_code(t)),
    ensures
        team_from_id(team_id(t)) == Some(t),
        team_from_code(s) == Some(t),
{
    reveal_strlit("ana");
    reveal_strlit("ari");
    reveal_strlit("atl");
    reveal_strlit("bal");
    reveal_strlit("bos");
    reveal_strlit("chc");
    reveal_strlit("cin");
    reveal_strlit("cle");
    reveal_strlit("col");
    reveal_strlit("cws");
    reveal_strlit("det");
    reveal_strlit("hou");
    reveal_strlit("kc");
    reveal_strlit("la");
    reveal_strlit("mia");
    reveal_strlit("mil");
    reveal_strlit("min");
    reveal_strlit("nym");
    reveal_strlit("nyy");
    reveal_strlit("oak");
    reveal_strlit("phi");
    reveal_strlit("pit");
    reveal_strlit("sd");
    reveal_strlit("sea");
    reveal_strlit("sf");
    reveal_strlit("stl");
    reveal_strlit("tb");
    reveal_strlit("tex");
    reveal_strlit("tor");
    reveal_strlit("was");
    assert(fold_lower("ana"@) =~= "ana"@);
    assert(fold_lower("ari"@) =~= "ari"@);
    assert(fold_lower("atl"@) =~= "atl"@);
    assert(fold_lower("bal"@) =~= "bal"@);
    assert(fold_lower("bos"@) =~= "bos"@);
    assert(fold_lower("chc"@) =~= "chc"@);
    assert(fold_lower("cin"@) =~= "cin"@);
    assert(fold_lower("cle"@) =~= "cle"@);
    assert(fold_lower("col"@) =~= "col"@);
    assert(fold_lower("cws"@) =~= "cws"@);
    assert(fold_lower("det"@) =~= "det"@);
    assert(fold_lower("hou"@) =~= "hou"@);
    assert(fold_lower("kc"@) =~= "kc"@);
    assert(fold_lower("la"@) =~= "la"@);
    assert(fold_lower("mia"@) =~= "mia"@);
    assert(fold_lower("mil"@) =~= "mil"@);
    assert(fold_lower("min"@) =~= "min"@);
    assert(fold_lower("nym"@) =~= "nym"@);
    assert(fold_lower("nyy"@) =~= "nyy"@);
    assert(fold_lower("oak"@) =~= "oak"@);
    assert(fold_lower("phi"@) =~= "phi"@);
    assert(fold_lower("pit"@) =~= "pit"@);
    assert(fold_lower("sd"@) =~= "sd"@);
    assert(fold_lower("sea"@) =~= "sea"@);
    assert(fold_lower("sf"@) =~= "sf"@);
    assert(fold_lower("stl"@) =~= "stl"@);
    assert(fold_lower("tb"@) =~= "tb"@);
    assert(fold_lower("tex"@) =~= "tex"@);
    assert(fold_lower("tor"@) =~= "tor"@);
    assert(fold_lower("was"@) =~= "was"@);
    assert("ana"@[0] == 'a' && "ana"@[1] == 'n' && "ana"@[2] == 'a');
    assert("ari"@[0] == 'a' && "ari"@[1] == 'r' && "ari"@[2] == 'i');
    assert("atl"@[0] == 'a' && "atl"@[1] == 't' && "atl"@[2] == 'l');
    assert("bal"@[0] == 'b' && "bal"@[1] == 'a' && "bal"@[2] == 'l');
    assert("bos"@[0] == 'b' && "bos"@[1] == 'o' && "bos"@[2] == 's');
    assert("chc"@[0] == 'c' && "chc"@[1] == 'h' && "chc"@[2] == 'c');
    assert("cin"@[0] == 'c' && "cin"@[1] == 'i' && "cin"@[2] == 'n');
    assert("cle"@[0] == 'c' && "cle"@[1] == 'l' && "cle"@[2] == 'e');
    assert("col"@[0] == 'c' && "col"@[1] == 'o' && "col"@[2] == 'l');
    assert("cws"@[0] == 'c' && "cws"@[1] == 'w' && "cws"@[2] == 's');
    assert("det"@[0] == 'd' && "det"@[1] == 'e' && "det"@[2] == 't');
    assert("hou"@[0] == 'h' && "hou"@[1] == 'o' && "hou"@[2] == 'u');
    assert("kc"@[0] == 'k' && "kc"@[1] == 'c');
    assert("la"@[0] == 'l' && "la"@[1] == 'a');
    assert("mia"@[0] == 'm' && "mia"@[1] == 'i' && "mia"@[2] == 'a');
    assert("mil"@[0] == 'm' && "mil"@[1] == 'i' && "mil"@[2] == 'l');
    assert("min"@[0] == 'm' && "min"@[1] == 'i' && "min"@[2] == 'n');
    assert("nym"@[0] == 'n' && "nym"@[1] == 'y' && "nym"@[2] == 'm');
    assert("nyy"@[0] == 'n' && "nyy"@[1] == 'y' && "nyy"@[2] == 'y');
    assert("oak"@[0] == 'o' && "oak"@[1] == 'a' && "oak"@[2] == 'k');
    assert("phi"@[0] == 'p' && "phi"@[1] == 'h' && "phi"@[2] == 'i');
    assert("pit"@[0] == 'p' && "pit"@[1] == 'i' && "pit"@[2] == 't');
    assert("sd"@[0] == 's' && "sd"@[1] == 'd');
    assert("sea"@[0] == 's' && "sea"@[1] == 'e' && "sea"@[2] == 'a');
    assert("sf"@[0] == 's' && "sf"@[1] == 'f');
    assert("stl"@[0] == 's' && "stl"@[1] == 't' && "stl"@[2] == 'l');
    assert("tb"@[0] == 't' && "tb"@[1] == 'b');
    assert("tex"@[0] == 't' && "tex"@[1] == 'e' && "tex"@[2] == 'x');
    assert("tor"@[0] == 't' && "tor"@[1] == 'o' && "tor"@[2] == 'r');
    assert("was"@[0] == 'w' && "was"@[1] == 'a' && "was"@[2] == 's');
    match t {
        MLBTeam::ANA => assert(fold_lower(s) == "ana"@),
        MLBTeam::ARI => assert(fold_lower(s) == "ari"@),
        MLBTeam::ATL => assert(fold_lower(s) == "atl"@),
        MLBTeam::BAL => assert(fold_lower(s) == "bal"@),
        MLBTeam::BOS => assert(fold_lower(s) == "bos"@),
        MLBTeam::CHC => assert(fold_lower(s) == "chc"@),
        MLBTeam::CIN => assert(fold_lower(s) == "cin"@),
        MLBTeam::CLE => assert(fold_lower(s) == "cle"@),
        MLBTeam::COL => assert(fold_lower(s) == "col"@),
        MLBTeam::CWS => assert(fold_lower(s) == "cws"@),
        MLBTeam::DET => assert(fold_lower(s) == "det"@),
        MLBTeam::HOU => assert(fold_lower(s) == "hou"@),
        MLBTeam::KC => assert(fold_lower(s) == "kc"@),
        MLBTeam::LA => assert(fold_lower(s) == "la"@),
        MLBTeam::MIA => assert(fold_lower(s) == "mia"@),
        MLBTeam::MIL => assert(fold_lower(s) == "mil"@),
        MLBTeam::MIN => assert(fold_lower(s) == "min"@),
        MLBTeam::NYM => assert(fold_lower(s) == "nym"@),
        MLBTeam::NYY => assert(fold_lower(s) == "nyy"@),
        MLBTeam::OAK => assert(fold_lower(s) == "oak"@),
        MLBTeam::PHI => assert(fold_lower(s) == "phi"@),
        MLBTeam::PIT => assert(fold_lower(s) == "pit"@),
        MLBTeam::SD => assert(fold_lower(s) == "sd"@),
        MLBTeam::SEA => assert(fold_lower(s) == "sea"@),
        MLBTeam::SF => assert(fold_lower(s) == "sf"@),
        MLBTeam::STL => assert(fold_lower(s) == "stl"@),
        MLBTeam::TB => assert(fold_lower(s) == "tb"@),
        MLBTeam::TEX => assert(fold_lower(s) == "tex"@),
        MLBTeam::TOR => assert(fold_lower(s) == "tor"@),
        MLBTeam::WAS => assert(fold_lower(s) == "was"@),
    }
}


/// Law: both the lowercase and the uppercase spelling of a team's
/// code parse back to that team.
pub proof fn lemma_team_code_cases(t: MLBTeam)
    ensures
        team_from_code(fold_lower(team_code(t))) == Some(t),
        team_from_code(raise_upper(team_code(t))) == Some(t),
{
    lemma_fold_idempotent(team_code(t));
    lemma_fold_raise(team_code(t));
    lemma_team_round_trip(t, fold_lower(team_code(t)));
    lemma_team_round_trip(t, raise_upper(team_code(t)));
}

} // verus!
