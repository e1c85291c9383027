//! Passive player records as the API reports them.

use vstd::prelude::*;

verus! {

/// One player.
#[derive(Debug, PartialEq)]
pub struct Player {
    pub id: u32,
    pub full_name: String,
    pub link: String,
    pub first_name: String,
    pub last_name: String,
    pub primary_number: u32,
    pub birth_date: String,
    pub height: String,
    pub weight: String,
    pub active: bool,
    pub captain: bool,
    /// Date format "YYYY-MM-DD"
    pub mlb_debut_date: String,
    pub bat_side: Side,
    pub pitch_hand: Side,
}

/// The side a player bats or throws from.
#[derive(Debug, PartialEq)]
pub struct Side {
    pub code: String,
    pub description: String,
}

/// The mathematical model of a `Side`.
pub struct SideV {
    pub code: Seq<char>,
    pub description: Seq<char>,
}

impl View for Side {
    type V = SideV;

    open spec fn view(&self) -> SideV {
        SideV { code: self.code@, description: self.description@ }
    }
}

impl DeepView for Side {
    type V = SideV;

    open spec fn deep_view(&self) -> SideV {
        self.view()
    }
}

/// The model of the default side: both texts empty.
pub open spec fn default_side() -> SideV {
    SideV { code: Seq::<char>::empty(), description: Seq::<char>::empty() }
}

impl Clone for Side {
    /// A clone carries the same model.
    fn clone(&self) -> (r: Self)
        ensures
            r@ == self@,
    {
        Side { code: self.code.clone(), description: self.description.clone() }
    }
}

impl Default for Side {
    /// The default side: both texts empty.
    fn default() -> (r: Self)
        ensures
            r@ == default_side(),
    {
        Side { code: String::new(), description: String::new() }
    }
}

/// The mathematical model of a `Player`.
pub struct PlayerV {
    pub id: u32,
    pub full_name: Seq<char>,
    pub link: Seq<char>,
    pub first_name: Seq<char>,
    pub last_name: Seq<char>,
    pub primary_number: u32,
    pub birth_date: Seq<char>,
    pub height: Seq<char>,
    pub weight: Seq<char>,
    pub active: bool,
    pub captain: bool,
    pub mlb_debut_date: Seq<char>,
    pub bat_side: SideV,
    pub pitch_hand: SideV,
}

impl View for Player {
    type V = PlayerV;

    open spec fn view(&self) -> PlayerV {
        PlayerV {
            id: self.id,
            full_name: self.full_name@,
            link: self.link@,
            first_name: self.first_name@,
            last_name: self.last_name@,
            primary_number: self.primary_number,
            birth_date: self.birth_date@,
            height: self.height@,
            weight: self.weight@,
            active: self.active,
            captain: self.captain,
            mlb_debut_date: self.mlb_debut_date@,
            bat_side: self.bat_side@,
            pitch_hand: self.pitch_hand@,
        }
    }
}

impl DeepView for Player {
    type V = PlayerV;

    open spec fn deep_view(&self) -> PlayerV {
        self.view()
    }
}

/// The model of the default player: zero ids, empty texts, inactive.
pub open spec fn default_player() -> PlayerV {
    PlayerV {
        id: 0,
        full_name: Seq::<char>::empty(),
        link: Seq::<char>::empty(),
        first_name: Seq::<char>::empty(),
        last_name: Seq::<char>::empty(),
        primary_number: 0,
        birth_date: Seq::<char>::empty(),
        height: Seq::<char>::empty(),
        weight: Seq::<char>::empty(),
        active: false,
        captain: false,
        mlb_debut_date: Seq::<char>::empty(),
        bat_side: default_side(),
        pitch_hand: default_side(),
    }
}

impl Clone for Player {
    /// A clone carries the same model.
    fn clone(&self) -> (r: Self)
        ensures
            r@ == self@,
    {
        Player {
            id: self.id,
            full_name: self.full_name.clone(),
            link: self.link.clone(),
            first_name: self.first_name.clone(),
            last_name: self.last_name.clone(),
            primary_number: self.primary_number,
            birth_date: self.birth_date.clone(),
            height: self.height.clone(),
            weight: self.weight.clone(),
            active: self.active,
            captain: self.captain,
            mlb_debut_date: self.mlb_debut_date.clone(),
            bat_side: self.bat_side.clone(),
            pitch_hand: self.pitch_hand.clone(),
        }
    }
}

impl Default for Player {
    /// The default player: zero ids, empty texts, inactive.
    fn default() -> (r: Self)
        ensures
            r@ == default_player(),
    {
        Player {
            id: 0,
            full_name: String::new(),
            link: String::new(),
            first_name: String::new(),
            last_name: String::new(),
            primary_number: 0,
            birth_date: String::new(),
            height: String::new(),
            weight: String::new(),
            active: false,
            captain: false,
            mlb_debut_date: String::new(),
            bat_side: Side::default(),
            pitch_hand: Side::default(),
        }
    }
}

} // verus!
