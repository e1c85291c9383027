//! Small records shared by several response models: a win-loss record
//! and the id/name/link triple the API uses to reference an entity.

use vstd::prelude::*;

verus! {

/// A win-loss record.
#[derive(Debug, PartialEq)]
pub struct Record {
    pub wins: u32,
    pub losses: u32,
    pub ties: Option<u32>,
    pub pct: String,
    pub kind: Option<String>,
    pub division: Option<IdNameLink>,
}

/// An id, an optional display name, and an API path.
#[derive(Debug, PartialEq)]
pub struct IdNameLink {
    pub id: u32,
    pub name: Option<String>,
    pub link: String,
}

/// The mathematical model of an `IdNameLink`.
pub struct IdNameLinkV {
    pub id: u32,
    pub name: Option<Seq<char>>,
    pub link: Seq<char>,
}

impl View for IdNameLink {
    type V = IdNameLinkV;

    open spec fn view(&self) -> IdNameLinkV {
        IdNameLinkV { id: self.id, name: self.name.deep_view(), link: self.link@ }
    }
}

impl DeepView for IdNameLink {
    type V = IdNameLinkV;

    open spec fn deep_view(&self) -> IdNameLinkV {
        self.view()
    }
}

/// The mathematical model of a `Record`.
pub struct RecordV {
    pub wins: u32,
    pub losses: u32,
    pub ties: Option<u32>,
    pub pct: Seq<char>,
    pub kind: Option<Seq<char>>,
    pub division: Option<IdNameLinkV>,
}

impl View for Record {
    type V = RecordV;

    open spec fn view(&self) -> RecordV {
        RecordV {
            wins: self.wins,
            losses: self.losses,
            ties: self.ties,
            pct: self.pct@,
            kind: self.kind.deep_view(),
            division: self.division.deep_view(),
        }
    }
}

impl DeepView for Record {
    type V = RecordV;

    open spec fn deep_view(&self) -> RecordV {
        self.view()
    }
}

/// The model of the default reference: id zero, no name, empty path.
pub open spec fn default_id_name_link() -> IdNameLinkV {
    IdNameLinkV { id: 0, name: None, link: Seq::<char>::empty() }
}

impl Clone for IdNameLink {
    /// A clone carries the same model.
    fn clone(&self) -> (r: Self)
        ensures
            r@ == self@,
    {
        IdNameLink { id: self.id, name: self.name.clone(), link: self.link.clone() }
    }
}

impl Default for IdNameLink {
    /// The default reference: id zero, no name, empty path.
    fn default() -> (r: Self)
        ensures
            r@ == default_id_name_link(),
    {
        IdNameLink { id: 0, name: None, link: String::new() }
    }
}

/// The model of the default record: zero wins and losses, nothing else.
pub open spec fn default_record() -> RecordV {
    RecordV {
        wins: 0,
        losses: 0,
        ties: None,
        pct: Seq::<char>::empty(),
        kind: None,
        division: None,
    }
}

impl Clone for Record {
    /// A clone carries the same model.
    fn clone(&self) -> (r: Self)
        ensures
            r@ == self@,
    {
        Record {
            wins: self.wins,
            losses: self.losses,
            ties: self.ties,
            pct: self.pct.clone(),
            kind: self.kind.clone(),
            division: self.division.clone(),
        }
    }
}

impl Default for Record {
    /// The default record: zero wins and losses, nothing else.
    fn default() -> (r: Self)
        ensures
            r@ == default_record(),
    {
        Record {
            wins: 0,
            losses: 0,
            ties: None,
            pct: String::new(),
            kind: None,
            division: None,
        }
    }
}

} // verus!
