//! The query-parameter bag for API requests and its serialization to a
//! query string.  Absent fields are omitted; list-valued fields become
//! repeated `key=value` pairs in list order; `sportId` is always
//! present; keys follow the field order of `QueryParams`.

use vstd::prelude::*;

use crate::encode::{enc_str, enc_string};
use crate::games::{game_type_code, GameTypes};
use crate::league::{league_id, MLBLeague};
use crate::stats::types::{leader_type_wire, stat_group_wire, LeagueLeaderTypes, StatGroup};
use crate::teams::{team_id, MLBTeam};
use crate::text::{dec_digits, u32_string};

verus! {

/// Stores available params for the MLB API. Not all params are
/// used/available for every endpoint; check the endpoint to see
/// available options.  Should not need to be directly used unless
/// constructing your own queries.
#[derive(Debug)]
pub struct QueryParams {
    pub league_id: Option<Vec<MLBLeague>>,
    pub date: Option<String>,
    pub season: Option<String>,
    pub standings_types: Option<Vec<String>>,
    pub fields: Option<Vec<String>>,
    pub hydrate: Option<String>,
    pub sport_id: u32,
    pub leader_categories: Option<Vec<LeagueLeaderTypes>>,
    pub leader_game_types: Option<Vec<GameTypes>>,
    pub stat_group: Option<StatGroup>,
    pub limit: Option<u32>,
    pub team_id: Option<MLBTeam>,
}

impl Default for QueryParams {
    /// The default bag: every optional field absent, `sport_id` one.
    fn default() -> (r: Self)
        ensures
            r.league_id is None,
            r.date is None,
            r.season is None,
            r.standings_types is None,
            r.fields is None,
            r.hydrate is None,
            r.sport_id == 1,
            r.leader_categories is None,
            r.leader_game_types is None,
            r.stat_group is None,
            r.limit is None,
            r.team_id is None,
    {
        Self {
            league_id: None,
            date: None,
            season: None,
            standings_types: None,
            fields: None,
            hydrate: None,
            sport_id: 1,
            leader_categories: None,
            leader_game_types: None,
            stat_group: None,
            limit: None,
            team_id: None,
        }
    }
}

/// The repeated `leagueId` pairs, one per league, in list order.
pub open spec fn league_id_segs(v: Option<Vec<MLBLeague>>) -> Seq<Seq<char>> {
    match v {
        None => Seq::<Seq<char>>::empty(),
        Some(ls) => ls@.map_values(
            |l: MLBLeague| "leagueId="@ + dec_digits(league_id(l) as int),
        ),
    }
}

/// One `key=value` pair for an optional text field, the value
/// percent-encoded; nothing when the field is absent.
pub open spec fn text_segs(key: Seq<char>, v: Option<String>) -> Seq<Seq<char>> {
    match v {
        None => Seq::<Seq<char>>::empty(),
        Some(s) => seq![key + enc_str(s@)],
    }
}

/// Repeated `key=value` pairs for an optional list of texts, each
/// value percent-encoded, in list order.
pub open spec fn text_list_segs(key: Seq<char>, v: Option<Vec<String>>) -> Seq<Seq<char>> {
    match v {
        None => Seq::<Seq<char>>::empty(),
        Some(xs) => xs@.map_values(|s: String| key + enc_str(s@)),
    }
}

/// The repeated `leaderCategories` pairs, in list order.
pub open spec fn category_segs(v: Option<Vec<LeagueLeaderTypes>>) -> Seq<Seq<char>> {
    match v {
        None => Seq::<Seq<char>>::empty(),
        Some(cs) => cs@.map_values(
            |c: LeagueLeaderTypes| "leaderCategories="@ + leader_type_wire(c),
        ),
    }
}

/// The repeated `leaderGameTypes` pairs, in list order.
pub open spec fn game_type_segs(v: Option<Vec<GameTypes>>) -> Seq<Seq<char>> {
    match v {
        None => Seq::<Seq<char>>::empty(),
        Some(gs) => gs@.map_values(|g: GameTypes| "leaderGameTypes="@ + game_type_code(g)),
    }
}

/// The `statGroup` pair, when a group is given.
pub open spec fn stat_group_segs(v: Option<StatGroup>) -> Seq<Seq<char>> {
    match v {
        None => Seq::<Seq<char>>::empty(),
        Some(g) => seq!["statGroup="@ + stat_group_wire(g)],
    }
}

/// The `limit` pair, when a limit is given.
pub open spec fn limit_segs(v: Option<u32>) -> Seq<Seq<char>> {
    match v {
        None => Seq::<Seq<char>>::empty(),
        Some(n) => seq!["limit="@ + dec_digits(n as int)],
    }
}

/// The `teamId` pair, when a team is given.
pub open spec fn team_segs(v: Option<MLBTeam>) -> Seq<Seq<char>> {
    match v {
        None => Seq::<Seq<char>>::empty(),
        Some(t) => seq!["teamId="@ + dec_digits(team_id(t) as int)],
    }
}

/// Every `key=value` pair of a parameter bag, in field order.  The
/// `sportId` pair is always present.
pub open spec fn query_segments(p: QueryParams) -> Seq<Seq<char>> {
    league_id_segs(p.league_id) + text_segs("date="@, p.date) + text_segs("season="@, p.season)
        + text_list_segs("standingsTypes="@, p.standings_types) + text_list_segs(
        "fields="@,
        p.fields,
    ) + text_segs("hydrate="@, p.hydrate) + seq!["sportId="@ + dec_digits(p.sport_id as int)]
        + category_segs(p.leader_categories) + game_type_segs(p.leader_game_types)
        + stat_group_segs(p.stat_group) + limit_segs(p.limit) + team_segs(p.team_id)
}

/// Pairs joined with `&`, in order.
pub open spec fn join_amp(segs: Seq<Seq<char>>) -> Seq<char>
    decreases segs.len(),
{
    if segs.len() == 0 {
        Seq::<char>::empty()
    } else if segs.len() == 1 {
        segs[0]
    } else {
        segs[0] + "&"@ + join_amp(segs.drop_first())
    }
}

/// The query string of a parameter bag.
pub open spec fn query_string(p: QueryParams) -> Seq<char> {
    join_amp(query_segments(p))
}

/// Appending one pair appends `&` and that pair (or just the pair,
/// to an empty list).
pub proof fn lemma_join_amp_push(segs: Seq<Seq<char>>, x: Seq<char>)
    ensures
        join_amp(segs.push(x)) == if segs.len() == 0 {
            x
        } else {
            join_amp(segs) + "&"@ + x
        },
    decreases segs.len(),
{
    if segs.len() == 0 {
        assert(segs.push(x)[0] == x);
        assert(join_amp(segs.push(x)) == x);
    } else if segs.len() == 1 {
        assert(segs.push(x)[0] == segs[0]);
        assert(segs.push(x).drop_first() =~= seq![x]);
        assert(join_amp(segs.push(x).drop_first()) == x);
        assert(join_amp(segs.push(x)) == segs[0] + "&"@ + x);
        assert(join_amp(segs) + "&"@ + x == segs[0] + "&"@ + x);
    } else {
        assert(segs.push(x).drop_first() =~= segs.drop_first().push(x));
        lemma_join_amp_push(segs.drop_first(), x);
        assert(join_amp(segs.push(x)) == segs[0] + "&"@ + (join_amp(segs.drop_first()) + "&"@
            + x));
        assert(segs[0] + "&"@ + (join_amp(segs.drop_first()) + "&"@ + x) =~= (segs[0] + "&"@
            + join_amp(segs.drop_first())) + "&"@ + x);
    }
}

/// Joins the built pairs with `&`.
fn join_segments(segs: &Vec<String>) -> (r: String)
    ensures
        r@ == join_amp(segs.deep_view()),
{
    let mut out = String::new();
    proof {
        assert(segs.deep_view().take(0) =~= Seq::<Seq<char>>::empty());
    }
    let mut i: usize = 0;
    while i < segs.len()
        invariant
            i <= segs@.len(),
            segs.deep_view().len() == segs@.len(),
            out@ == join_amp(segs.deep_view().take(i as int)),
        decreases segs@.len() - i,
    {
        if i > 0 {
            out.append("&");
        }
        out.append(segs[i].as_str());
        proof {
            lemma_join_amp_push(segs.deep_view().take(i as int), segs.deep_view()[i as int]);
            assert(segs.deep_view().take(i as int).push(segs.deep_view()[i as int])
                =~= segs.deep_view().take(i as int + 1));
            assert(out@ =~= join_amp(segs.deep_view().take(i as int + 1)));
        }
        i += 1;
    }
    proof {
        assert(segs.deep_view().take(segs@.len() as int) =~= segs.deep_view());
    }
    out
}

/// Pushes the pair for an optional text field.
fn push_text_seg(segs: &mut Vec<String>, key: &'static str, v: &Option<String>)
    ensures
        final(segs).deep_view() == old(segs).deep_view() + text_segs(key@, *v),
{
    if let Some(d) = v {
        let mut s = key.to_owned();
        let e = enc_string(d.as_str());
        s.append(e.as_str());
        proof {
            assert(s@ == key@ + enc_str(d@));
        }
        segs.push(s);
        proof {
            assert(final(segs).deep_view() =~= old(segs).deep_view() + text_segs(key@, *v));
        }
    } else {
        proof {
            assert(final(segs).deep_view() =~= old(segs).deep_view() + text_segs(key@, *v));
        }
    }
}

/// Pushes the repeated pairs for an optional list of texts.
fn push_text_list_segs(segs: &mut Vec<String>, key: &'static str, v: &Option<Vec<String>>)
    ensures
        final(segs).deep_view() == old(segs).deep_view() + text_list_segs(key@, *v),
{
    if let Some(xs) = v {
        let ghost target = text_list_segs(key@, *v);
        let ghost base = segs.deep_view();
        let mut i: usize = 0;
        while i < xs.len()
            invariant
                i <= xs@.len(),
                target == text_list_segs(key@, Some(*xs)),
                target.len() == xs@.len(),
                segs.deep_view() == base + target.take(i as int),
            decreases xs@.len() - i,
        {
            let mut s = key.to_owned();
            let e = enc_string(xs[i].as_str());
            s.append(e.as_str());
            proof {
                assert(s@ == target[i as int]);
            }
            let ghost pre = segs.deep_view();
            segs.push(s);
            proof {
                assert forall|k: int| 0 <= k < pre.len() implies segs.deep_view()[k]
                    == pre[k] by {}
                assert(segs.deep_view()[pre.len() as int] == target[i as int]);
                assert(segs.deep_view() =~= pre.push(target[i as int]));
                assert(pre.push(target[i as int]) =~= base + target.take(i as int + 1));
            }
            i += 1;
        }
        proof {
            assert(target.take(xs@.len() as int) =~= target);
        }
    } else {
        proof {
            assert(final(segs).deep_view() =~= old(segs).deep_view() + text_list_segs(key@, *v));
        }
    }
}

/// Pushes the repeated `leagueId` pairs.
fn push_league_segs(segs: &mut Vec<String>, v: &Option<Vec<MLBLeague>>)
    ensures
        final(segs).deep_view() == old(segs).deep_view() + league_id_segs(*v),
{
    if let Some(ls) = v {
        let ghost target = league_id_segs(*v);
        let ghost base = segs.deep_view();
        let mut i: usize = 0;
        while i < ls.len()
            invariant
                i <= ls@.len(),
                target == league_id_segs(Some(*ls)),
                target.len() == ls@.len(),
                segs.deep_view() == base + target.take(i as int),
            decreases ls@.len() - i,
        {
            let mut s = "leagueId=".to_owned();
            let d = u32_string(ls[i].id());
            s.append(d.as_str());
            proof {
                assert(s@ == target[i as int]);
            }
            let ghost pre = segs.deep_view();
            segs.push(s);
            proof {
                assert forall|k: int| 0 <= k < pre.len() implies segs.deep_view()[k]
                    == pre[k] by {}
                assert(segs.deep_view()[pre.len() as int] == target[i as int]);
                assert(segs.deep_view() =~= pre.push(target[i as int]));
                assert(pre.push(target[i as int]) =~= base + target.take(i as int + 1));
            }
            i += 1;
        }
        proof {
            assert(target.take(ls@.len() as int) =~= target);
        }
    } else {
        proof {
            assert(final(segs).deep_view() =~= old(segs).deep_view() + league_id_segs(*v));
        }
    }
}

/// Pushes the repeated `leaderCategories` pairs.
fn push_category_segs(segs: &mut Vec<String>, v: &Option<Vec<LeagueLeaderTypes>>)
    ensures
        final(segs).deep_view() == old(segs).deep_view() + category_segs(*v),
{
    if let Some(cs) = v {
        let ghost target = category_segs(*v);
        let ghost base = segs.deep_view();
        let mut i: usize = 0;
        while i < cs.len()
            invariant
                i <= cs@.len(),
                target == category_segs(Some(*cs)),
                target.len() == cs@.len(),
                segs.deep_view() == base + target.take(i as int),
            decreases cs@.len() - i,
        {
            let mut s = "leaderCategories=".to_owned();
            s.append(cs[i].wire_name());
            proof {
                assert(s@ == target[i as int]);
            }
            let ghost pre = segs.deep_view();
            segs.push(s);
            proof {
                assert forall|k: int| 0 <= k < pre.len() implies segs.deep_view()[k]
                    == pre[k] by {}
                assert(segs.deep_view()[pre.len() as int] == target[i as int]);
                assert(segs.deep_view() =~= pre.push(target[i as int]));
                assert(pre.push(target[i as int]) =~= base + target.take(i as int + 1));
            }
            i += 1;
        }
        proof {
            assert(target.take(cs@.len() as int) =~= target);
        }
    } else {
        proof {
            assert(final(segs).deep_view() =~= old(segs).deep_view() + category_segs(*v));
        }
    }
}

/// Pushes the repeated `leaderGameTypes` pairs.
fn push_game_type_segs(segs: &mut Vec<String>, v: &Option<Vec<GameTypes>>)
    ensures
        final(segs).deep_view() == old(segs).deep_view() + game_type_segs(*v),
{
    if let Some(gs) = v {
        let ghost target = game_type_segs(*v);
        let ghost base = segs.deep_view();
        let mut i: usize = 0;
        while i < gs.len()
            invariant
                i <= gs@.len(),
                target == game_type_segs(Some(*gs)),
                target.len() == gs@.len(),
                segs.deep_view() == base + target.take(i as int),
            decreases gs@.len() - i,
        {
            let mut s = "leaderGameTypes=".to_owned();
            s.append(gs[i].code());
            proof {
                assert(s@ == target[i as int]);
            }
            let ghost pre = segs.deep_view();
            segs.push(s);
            proof {
                assert forall|k: int| 0 <= k < pre.len() implies segs.deep_view()[k]
                    == pre[k] by {}
                assert(segs.deep_view()[pre.len() as int] == target[i as int]);
                assert(segs.deep_view() =~= pre.push(target[i as int]));
                assert(pre.push(target[i as int]) =~= base + target.take(i as int + 1));
            }
            i += 1;
        }
        proof {
            assert(target.take(gs@.len() as int) =~= target);
        }
    } else {
        proof {
            assert(final(segs).deep_view() =~= old(segs).deep_view() + game_type_segs(*v));
        }
    }
}

/// Serializes a parameter bag to its query string: absent fields
/// omitted, list fields as repeated keys in list order, `sportId`
/// always present, keys in field order, text values percent-encoded.
pub fn to_query_string(p: &QueryParams) -> (r: String)
    ensures
        r@ == query_string(*p),
{
    let mut segs: Vec<String> = Vec::new();
    proof {
        assert(segs.deep_view() =~= Seq::<Seq<char>>::empty());
        assert(Seq::<Seq<char>>::empty() + league_id_segs(p.league_id) =~= league_id_segs(
            p.league_id,
        ));
    }
    push_league_segs(&mut segs, &p.league_id);
    push_text_seg(&mut segs, "date=", &p.date);
    push_text_seg(&mut segs, "season=", &p.season);
    push_text_list_segs(&mut segs, "standingsTypes=", &p.standings_types);
    push_text_list_segs(&mut segs, "fields=", &p.fields);
    push_text_seg(&mut segs, "hydrate=", &p.hydrate);
    let mut s = "sportId=".to_owned();
    let d = u32_string(p.sport_id);
    s.append(d.as_str());
    proof {
        assert(s@ == "sportId="@ + dec_digits(p.sport_id as int));
    }
    let ghost before_sport = segs.deep_view();
    segs.push(s);
    proof {
        assert(segs.deep_view() =~= before_sport + seq![
            "sportId="@ + dec_digits(p.sport_id as int),
        ]);
    }
    push_category_segs(&mut segs, &p.leader_categories);
    push_game_type_segs(&mut segs, &p.leader_game_types);
    if let Some(g) = &p.stat_group {
        let mut s = "statGroup=".to_owned();
        s.append(g.wire_name());
        segs.push(s);
    }
    proof {
        let upto_gt = league_id_segs(p.league_id) + text_segs("date="@, p.date) + text_segs(
            "season="@,
            p.season,
        ) + text_list_segs("standingsTypes="@, p.standings_types) + text_list_segs(
            "fields="@,
            p.fields,
        ) + text_segs("hydrate="@, p.hydrate) + seq![
            "sportId="@ + dec_digits(p.sport_id as int),
        ] + category_segs(p.leader_categories) + game_type_segs(p.leader_game_types);
        assert(segs.deep_view() =~= upto_gt + stat_group_segs(p.stat_group));
    }
    let ghost upto_group = segs.deep_view();
    if let Some(n) = &p.limit {
        let mut s = "limit=".to_owned();
        let d = u32_string(*n);
        s.append(d.as_str());
        segs.push(s);
    }
    proof {
        assert(segs.deep_view() =~= upto_group + limit_segs(p.limit));
    }
    let ghost upto_limit = segs.deep_view();
    if let Some(t) = &p.team_id {
        let mut s = "teamId=".to_owned();
        let d = u32_string(t.id());
        s.append(d.as_str());
        segs.push(s);
    }
    proof {
        assert(segs.deep_view() =~= upto_limit + team_segs(p.team_id));
        assert(segs.deep_view() =~= query_segments(*p));
    }
    join_segments(&segs)
}

} // verus!
