//! Round trips between variants, numeric ids and textual codes.

use mlbstats::commands::Stat;
use mlbstats::division::MLBDivision;
use mlbstats::league::MLBLeague;
use mlbstats::stats::types::StatGroup;
use mlbstats::teams::MLBTeam;

#[test]
fn league_conversions() {
    assert_eq!(MLBLeague::try_from(103).unwrap(), MLBLeague::AL);
    assert_eq!(MLBLeague::from_str("al").unwrap(), MLBLeague::AL);
    assert_eq!(MLBLeague::from_str("AL").unwrap(), MLBLeague::AL);
    assert_eq!(MLBLeague::from_str("Al").unwrap(), MLBLeague::AL);

    let al: u32 = MLBLeague::AL.into();
    assert_eq!(al, 103);
}

#[test]
fn division_conversions() {
    assert_eq!(MLBDivision::from_str("ALC").unwrap(), MLBDivision::ALCentral);
    assert_eq!(MLBDivision::from_str("alc").unwrap(), MLBDivision::ALCentral);

    let alc: u32 = MLBDivision::ALCentral.into();
    assert_eq!(alc, 202);
}

#[test]
fn mlb_team_conversions() {
    assert_eq!(MLBTeam::try_from(108).unwrap(), MLBTeam::ANA);
    assert_eq!(MLBTeam::try_from(1000).is_err(), true);
}

#[test]
fn league_unknown_id_fails() {
    assert!(MLBLeague::try_from(999).is_err());
    assert_eq!(MLBLeague::try_from(104).unwrap(), MLBLeague::NL);
    assert!(MLBLeague::from_str("xx").is_err());
}

#[test]
fn all_teams_round_trip() {
    let teams = [
        (MLBTeam::ANA, 108, "ana"),
        (MLBTeam::ARI, 109, "ari"),
        (MLBTeam::ATL, 144, "atl"),
        (MLBTeam::BAL, 110, "bal"),
        (MLBTeam::BOS, 111, "bos"),
        (MLBTeam::CHC, 112, "chc"),
        (MLBTeam::CIN, 113, "cin"),
        (MLBTeam::CLE, 114, "cle"),
        (MLBTeam::COL, 115, "col"),
        (MLBTeam::CWS, 145, "cws"),
        (MLBTeam::DET, 116, "det"),
        (MLBTeam::HOU, 117, "hou"),
        (MLBTeam::KC, 118, "kc"),
        (MLBTeam::LA, 119, "la"),
        (MLBTeam::MIA, 146, "mia"),
        (MLBTeam::MIL, 158, "mil"),
        (MLBTeam::MIN, 142, "min"),
        (MLBTeam::NYM, 121, "nym"),
        (MLBTeam::NYY, 147, "nyy"),
        (MLBTeam::OAK, 133, "oak"),
        (MLBTeam::PHI, 143, "phi"),
        (MLBTeam::PIT, 134, "pit"),
        (MLBTeam::SD, 135, "sd"),
        (MLBTeam::SEA, 136, "sea"),
        (MLBTeam::SF, 137, "sf"),
        (MLBTeam::STL, 138, "stl"),
        (MLBTeam::TB, 139, "tb"),
        (MLBTeam::TEX, 140, "tex"),
        (MLBTeam::TOR, 141, "tor"),
        (MLBTeam::WAS, 120, "was"),
    ];
    assert_eq!(teams.len(), 30);
    for (team, id, code) in teams {
        assert_eq!(team.id(), id);
        assert_eq!(MLBTeam::try_from(team.id()).unwrap(), team);
        assert_eq!(MLBTeam::from_str(&code.to_lowercase()).unwrap(), team);
        assert_eq!(MLBTeam::from_str(&code.to_uppercase()).unwrap(), team);
    }
}

#[test]
fn all_divisions_round_trip() {
    let divisions = [
        (MLBDivision::ALCentral, 202, "alc"),
        (MLBDivision::ALEast, 201, "ale"),
        (MLBDivision::ALWest, 200, "alw"),
        (MLBDivision::NLCentral, 205, "nlc"),
        (MLBDivision::NLEast, 204, "nle"),
        (MLBDivision::NLWest, 203, "nlw"),
    ];
    for (division, id, code) in divisions {
        assert_eq!(division.id(), id);
        assert_eq!(MLBDivision::try_from(division.id()).unwrap(), division);
        assert_eq!(MLBDivision::from_str(&code.to_lowercase()).unwrap(), division);
        assert_eq!(MLBDivision::from_str(&code.to_uppercase()).unwrap(), division);
    }
    assert!(MLBDivision::try_from(299).is_err());
    assert!(MLBDivision::from_str("alx").is_err());
}

#[test]
fn stat_groups_exact() {
    assert_eq!(Stat::HR.stat_group(), StatGroup::Hitting);
    assert_eq!(Stat::OPS.stat_group(), StatGroup::Hitting);
    assert_eq!(Stat::OBP.stat_group(), StatGroup::Hitting);
    assert_eq!(Stat::AVG.stat_group(), StatGroup::Hitting);
    assert_eq!(Stat::ERA.stat_group(), StatGroup::Pitching);
    assert_eq!(Stat::Saves.stat_group(), StatGroup::Pitching);
}

#[test]
fn stat_parsing_and_names() {
    assert_eq!(Stat::from_str("hr").unwrap(), Stat::HR);
    assert_eq!(Stat::from_str("saves").unwrap(), Stat::Saves);
    assert!(Stat::from_str("HR").is_err());
    assert!(Stat::from_str("wins").is_err());
    assert_eq!(Stat::ERA.display_name(), "Earned Run Average");
    assert_eq!(Stat::OPS.display_name(), "On-base Plus Slugging");
}

#[test]
fn division_names() {
    assert_eq!(MLBDivision::ALWest.name(), "American League West");
    assert_eq!(MLBDivision::ALWest.short_name(), "AL West");
    assert_eq!(MLBDivision::NLCentral.name(), "National League Central");
    assert_eq!(MLBDivision::NLCentral.short_name(), "NL Central");
}
