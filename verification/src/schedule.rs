//! The schedule response: games grouped into date buckets, and the
//! flattening of those buckets into one ordered sequence.

use vstd::prelude::*;

use crate::games::{Game, GameV};

verus! {

/// A range of dates, each with its games.
#[derive(Debug, PartialEq)]
pub struct ScheduleResponse {
    /// Number of games in response
    pub total_games: u32,
    /// Range of dates containing vector of games
    pub dates: Vec<Date>,
}

/// One date bucket of the schedule.
#[derive(Debug, PartialEq)]
pub struct Date {
    /// Date in YYYY-MM-DD format
    pub date: String,
    /// Total games on the date
    pub total_games: u32,
    /// List of games
    pub games: Vec<Game>,
}

/// The mathematical model of a `Date`.
pub struct DateV {
    pub date: Seq<char>,
    pub total_games: u32,
    pub games: Seq<GameV>,
}

impl View for Date {
    type V = DateV;

    open spec fn view(&self) -> DateV {
        DateV { date: self.date@, total_games: self.total_games, games: self.games.deep_view() }
    }
}

impl DeepView for Date {
    type V = DateV;

    open spec fn deep_view(&self) -> DateV {
        self.view()
    }
}

impl Clone for Date {
    /// A clone carries the same model.
    fn clone(&self) -> (r: Self)
        ensures
            r@ == self@,
    {
        let r = Date {
            date: self.date.clone(),
            total_games: self.total_games,
            games: self.games.clone(),
        };
        proof {
            assert forall|i: int| 0 <= i < self.games@.len() implies r.games@[i]@
                == self.games@[i]@ by {}
            assert(r.games.deep_view() =~= self.games.deep_view());
        }
        r
    }
}

impl Default for Date {
    /// The default bucket: empty date, no games.
    fn default() -> (r: Self)
        ensures
            r.date@ == Seq::<char>::empty(),
            r.total_games == 0,
            r.games@.len() == 0,
    {
        Date { date: String::new(), total_games: 0, games: Vec::new() }
    }
}

/// The mathematical model of a `ScheduleResponse`.
pub struct ScheduleResponseV {
    pub total_games: u32,
    pub dates: Seq<DateV>,
}

impl View for ScheduleResponse {
    type V = ScheduleResponseV;

    open spec fn view(&self) -> ScheduleResponseV {
        ScheduleResponseV { total_games: self.total_games, dates: self.dates.deep_view() }
    }
}

impl DeepView for ScheduleResponse {
    type V = ScheduleResponseV;

    open spec fn deep_view(&self) -> ScheduleResponseV {
        self.view()
    }
}

impl Clone for ScheduleResponse {
    /// A clone carries the same model.
    fn clone(&self) -> (r: Self)
        ensures
            r@ == self@,
    {
        let r = ScheduleResponse { total_games: self.total_games, dates: self.dates.clone() };
        proof {
            assert forall|i: int| 0 <= i < self.dates@.len() implies r.dates@[i]@
                == self.dates@[i]@ by {}
            assert(r.dates.deep_view() =~= self.dates.deep_view());
        }
        r
    }
}

impl Default for ScheduleResponse {
    /// The default schedule: no games, no dates.
    fn default() -> (r: Self)
        ensures
            r.total_games == 0,
            r.dates@.len() == 0,
    {
        ScheduleResponse { total_games: 0, dates: Vec::new() }
    }
}

/// All games of a sequence of date buckets, in bucket order and, within
/// a bucket, in the bucket's own order.
pub open spec fn all_games(dates: Seq<DateV>) -> Seq<GameV>
    decreases dates.len(),
{
    if dates.len() == 0 {
        Seq::<GameV>::empty()
    } else {
        dates[0].games + all_games(dates.drop_first())
    }
}

/// Appending one bucket appends exactly that bucket's games.
pub proof fn lemma_all_games_push(dates: Seq<DateV>, d: DateV)
    ensures
        all_games(dates.push(d)) == all_games(dates) + d.games,
    decreases dates.len(),
{
    if dates.len() == 0 {
        assert(dates.push(d).drop_first() =~= Seq::<DateV>::empty());
        assert(dates.push(d)[0] == d);
        assert(all_games(dates.push(d).drop_first()) == Seq::<GameV>::empty());
        assert(all_games(dates.push(d)) == d.games + Seq::<GameV>::empty());
        assert(d.games + Seq::<GameV>::empty() =~= d.games);
        assert(all_games(dates) + d.games =~= d.games);
    } else {
        assert(dates.push(d).drop_first() =~= dates.drop_first().push(d));
        lemma_all_games_push(dates.drop_first(), d);
        assert(all_games(dates.push(d)) =~= all_games(dates) + d.games);
    }
}

impl ScheduleResponse {
    /// Flattens the games of every date bucket into one sequence,
    /// preserving bucket order, then order within each bucket.
    #[verifier::rlimit(100)]
    pub fn games(&self) -> (r: Vec<Game>)
        ensures
            r.deep_view() == all_games(self@.dates),
    {
        let mut games: Vec<Game> = Vec::new();
        proof {
            assert(games.deep_view() =~= Seq::<GameV>::empty());
            assert(self@.dates.take(0) =~= Seq::<DateV>::empty());
        }
        let mut i: usize = 0;
        while i < self.dates.len()
            invariant
                i <= self.dates@.len(),
                self@.dates.len() == self.dates@.len(),
                games.deep_view() == all_games(self@.dates.take(i as int)),
            decreases self.dates@.len() - i,
        {
            let date = &self.dates[i];
            let mut j: usize = 0;
            while j < date.games.len()
                invariant
                    i < self.dates@.len(),
                    self@.dates.len() == self.dates@.len(),
                    j <= date.games@.len(),
                    date == self.dates@[i as int],
                    date@.games.len() == date.games@.len(),
                    games.deep_view() == all_games(self@.dates.take(i as int)) + date@.games.take(
                        j as int,
                    ),
                decreases date.games@.len() - j,
            {
                let ghost pre = games.deep_view();
                let g = date.games[j].clone();
                proof {
                    assert(g@ == date@.games[j as int]);
                }
                games.push(g);
                proof {
                    assert forall|k: int| 0 <= k < pre.len() implies games.deep_view()[k]
                        == pre[k] by {}
                    assert(games.deep_view()[pre.len() as int] == date@.games[j as int]);
                    assert(games.deep_view() =~= pre.push(date@.games[j as int]));
                    assert(pre.push(date@.games[j as int]) =~= all_games(
                        self@.dates.take(i as int),
                    ) + date@.games.take(j as int + 1));
                }
                j += 1;
            }
            proof {
                assert(date@.games.take(date.games@.len() as int) =~= date@.games);
                lemma_all_games_push(self@.dates.take(i as int), self@.dates[i as int]);
                assert(self@.dates.take(i as int).push(self@.dates[i as int]) =~= self@.dates.take(
                    i as int + 1,
                ));
                assert(date@ == self@.dates[i as int]);
            }
            i += 1;
        }
        proof {
            assert(self@.dates.take(self.dates@.len() as int) =~= self@.dates);
        }
        games
    }
}

/// The ids of all games of a schedule, in the flattened order.
pub fn game_ids(schedule: &ScheduleResponse) -> (r: Vec<u32>)
    ensures
        r@.len() == all_games(schedule@.dates).len(),
        forall|i: int|
            0 <= i < r@.len() ==> r@[i] == all_games(schedule@.dates)[i].game_pk,
{
    let games = schedule.games();
    let mut ids: Vec<u32> = Vec::new();
    let mut i: usize = 0;
    while i < games.len()
        invariant
            i <= games@.len(),
            games.deep_view() == all_games(schedule@.dates),
            games.deep_view().len() == games@.len(),
            ids@.len() == i,
            forall|k: int| 0 <= k < i ==> ids@[k] == all_games(schedule@.dates)[k].game_pk,
        decreases games@.len() - i,
    {
        ids.push(games[i].game_pk);
        i += 1;
    }
    ids
}

} // verus!
