use bunt::game::Handler;
use bunt::json::Document;
use bunt::order::order_by_key;
use bunt::standings::{
    make_row, measure, parse_query, read_records, render_standings, render_table,
    standings_in_month, standings_url, DivisionRecord, Row, StandingsError, StandingsQuery,
    TeamRecord,
};

fn team(name: &str, leader: bool, rank: Option<&str>, gb: &str, wcgb: &str) -> TeamRecord {
    TeamRecord {
        division_leader: leader,
        wild_card_rank: rank.map(str::to_string),
        club_name: Some(name.to_string()),
        winning_percentage: Some(".600".to_string()),
        games_back: Some(gb.to_string()),
        wild_card_games_back: Some(wcgb.to_string()),
        streak: Some("W2".to_string()),
        magic_number: Some("12".to_string()),
        elimination_number: Some("E".to_string()),
    }
}

fn division(id: i64, name: &str, month: u32, teams: Vec<TeamRecord>) -> DivisionRecord {
    DivisionRecord { id: Some(id), short_name: Some(name.to_string()), updated_month: Some(month), teams: Some(teams) }
}

fn query(division_id: i64, wild_card: bool) -> StandingsQuery {
    StandingsQuery { league_id: 104, division_id, wild_card }
}

fn two_teams(month: u32) -> Option<Vec<DivisionRecord>> {
    Some(vec![
        division(203, "NL West", 1, Vec::new()),
        division(
            204,
            "NL East",
            month,
            vec![team("Braves", true, None, "\u{2014}", "+4.0"), team("Phillies", false, Some("1"), "2.5", "+1.5")],
        ),
    ])
}

#[test]
fn before_september_the_columns_are_games_back_and_streak() {
    let e = render_standings(query(204, false), &two_teams(8), 12).unwrap();
    assert_eq!(e.title, "NL East Standings");
    let expected = [
        "```\n",
        "  Team      WPCT  GB   Streak\n",
        "D Braves    .600  \u{2014}    W2    \n",
        "1 Phillies  .600  2.5  W2    \n",
        "```",
    ]
    .concat();
    assert_eq!(e.description, Some(expected));
    assert_eq!(e.thumbnail, None);
    assert!(e.fields.is_empty());
}

#[test]
fn from_september_on_the_columns_are_magic_and_elimination_numbers() {
    let early = render_standings(query(204, false), &two_teams(8), 12).unwrap();
    let late = render_standings(query(204, false), &two_teams(9), 1).unwrap();
    let expected = [
        "```\n",
        "  Team      WPCT  M#  E#\n",
        "D Braves    .600  12  E \n",
        "1 Phillies  .600  12  E \n",
        "```",
    ]
    .concat();
    assert_eq!(late.description, Some(expected.clone()));
    let names = |text: &str| -> Vec<String> {
        text.lines().filter(|l| l.len() > 3 && !l.starts_with("  ")).map(|l| l[2..10].trim().to_string()).collect()
    };
    assert_eq!(names(early.description.as_ref().unwrap()), vec!["Braves", "Phillies"]);
    assert_eq!(names(late.description.as_ref().unwrap()), names(early.description.as_ref().unwrap()));
    for month in 9..=12 {
        assert_eq!(render_standings(query(204, false), &two_teams(month), 1).unwrap().description, Some(expected.clone()));
    }
    for month in 1..=8 {
        assert_eq!(render_standings(query(204, false), &two_teams(month), 12), Ok(early.clone()));
    }
}

fn five_divisions() -> Option<Vec<DivisionRecord>> {
    Some(vec![
        division(203, "NL West", 5, vec![team("Padres", false, Some("4"), "3.0", "1.0"), team("Dodgers", true, Some("2"), "-", "+2.0")]),
        division(204, "NL East", 5, vec![team("Mets", false, Some("5"), "9.0", "2.5"), team("Phillies", false, Some("1"), "2.5", "+3.0")]),
        division(205, "NL Central", 5, vec![team("Cubs", false, Some("3"), "1.0", "-")]),
    ])
}

#[test]
fn the_wild_card_ranking_is_ordered_by_rank_with_a_rule_after_the_third() {
    let e = render_standings(query(204, true), &five_divisions(), 5).unwrap();
    assert_eq!(e.title, "NL Wild Card Standings");
    let expected = [
        "```\n",
        "  Team      WPCT  GB    Streak\n",
        "1 Phillies  .600  +3.0  W2    \n",
        "D Dodgers   .600  +2.0  W2    \n",
        "3 Cubs      .600  -     W2    \n",
        "------------------------------\n",
        "  Padres    .600  1.0   W2    \n",
        "  Mets      .600  2.5   W2    \n",
        "```",
    ]
    .concat();
    assert_eq!(e.description, Some(expected));
    let text = e.description.unwrap();
    let lines: Vec<&str> = text.lines().collect();
    assert_eq!(lines[5], "-".repeat(2 + 8 + 2 + 4 + 2 + 4 + 2 + 6));
    let american = StandingsQuery { league_id: 103, division_id: 201, wild_card: true };
    assert_eq!(render_standings(american, &five_divisions(), 5).unwrap().title, "AL Wild Card Standings");
}

#[test]
fn the_wild_card_ranking_goes_by_the_current_month() {
    let late = render_standings(query(204, true), &five_divisions(), 9).unwrap().description.unwrap();
    assert!(late.starts_with("```\n  Team      WPCT  M#  E#\n1 Phillies  .600  12  E \n"));
    assert_eq!(late.lines().nth(5), Some("------------------------"));
}

#[test]
fn a_division_has_no_rule_and_a_short_ranking_has_none_either() {
    let mut records = five_divisions();
    let e = render_standings(query(203, false), &records, 5).unwrap().description.unwrap();
    assert!(!e.contains("--"));
    records.as_mut().unwrap().truncate(1);
    let short = render_standings(query(203, true), &records, 5).unwrap().description.unwrap();
    assert!(!short.contains("--"));
    assert_eq!(short.lines().count(), 5);
}

#[test]
fn teams_of_equal_rank_keep_the_order_of_the_feed() {
    let records = Some(vec![
        division(203, "W", 5, vec![team("A", false, None, "1", "1"), team("B", false, Some("2"), "1", "1")]),
        division(204, "E", 5, vec![team("C", false, Some("x"), "1", "1"), team("D", false, Some("2"), "1", "1"), team("E", false, Some("1"), "1", "1")]),
    ]);
    let mut teams = Vec::new();
    for d in records.as_ref().unwrap() {
        teams.extend(d.teams.as_ref().unwrap().iter().cloned());
    }
    teams[2].wild_card_rank = Some("300".to_string());
    let records = Some(vec![division(1, "All", 5, teams)]);
    let e = render_standings(query(0, true), &records, 5).unwrap().description.unwrap();
    let names: Vec<char> = e.lines().filter_map(|l| l.chars().nth(2)).filter(|c| c.is_ascii_uppercase() && *c != 'T').collect();
    assert_eq!(names, vec!['A', 'C', 'E', 'B', 'D']);
    assert_eq!(order_by_key(&vec![0, 2, 0, 2, 1]), vec![0, 2, 4, 1, 3]);
    assert_eq!(order_by_key(&vec![3, 2, 1]), vec![2, 1, 0]);
    assert_eq!(order_by_key(&Vec::new()), Vec::<usize>::new());
    let mut keys = vec![5u8, 1, 4, 1, 5, 9, 2, 6, 5, 3, 5];
    let order = order_by_key(&keys);
    let mut indexed: Vec<usize> = (0..keys.len()).collect();
    indexed.sort_by_key(|i| keys[*i]);
    assert_eq!(order, indexed);
    keys.sort();
}

#[test]
fn markers_show_leaders_and_the_first_three_ranks() {
    let marker = |leader: bool, rank: Option<&str>| make_row(&team("T", leader, rank, "1", "1"), false, false).unwrap().marker;
    assert_eq!(marker(true, Some("1")), "D");
    assert_eq!(marker(true, None), "D");
    assert_eq!(marker(false, None), "0");
    assert_eq!(marker(false, Some("1")), "1");
    assert_eq!(marker(false, Some("3")), "3");
    assert_eq!(marker(false, Some("03")), "3");
    assert_eq!(marker(false, Some("4")), " ");
    assert_eq!(marker(false, Some("300")), " ");
}

#[test]
fn a_row_takes_its_third_and_fourth_cell_by_season_and_table() {
    let t = team("T", false, Some("2"), "gb", "wcgb");
    let cells = |late: bool, wild_card: bool| {
        let r = make_row(&t, late, wild_card).unwrap();
        (r.third, r.fourth)
    };
    assert_eq!(cells(false, false), ("gb".to_string(), "W2".to_string()));
    assert_eq!(cells(false, true), ("wcgb".to_string(), "W2".to_string()));
    assert_eq!(cells(true, false), ("12".to_string(), "E".to_string()));
    assert_eq!(cells(true, true), ("12".to_string(), "E".to_string()));
}

#[test]
fn the_first_missing_thing_of_a_team_is_named() {
    let check = |change: &dyn Fn(&mut TeamRecord), late: bool, wild_card: bool, expected: StandingsError| {
        let mut t = team("T", false, Some("2"), "1", "1");
        change(&mut t);
        assert_eq!(make_row(&t, late, wild_card), Err(expected));
    };
    check(&|t| t.wild_card_rank = Some("second".to_string()), false, false, StandingsError::WildCardRank);
    check(&|t| t.club_name = None, false, false, StandingsError::ClubName);
    check(&|t| t.winning_percentage = None, false, false, StandingsError::WinningPercentage);
    check(&|t| t.games_back = None, false, false, StandingsError::GamesBack);
    check(&|t| t.wild_card_games_back = None, false, true, StandingsError::GamesBack);
    check(&|t| t.streak = None, false, false, StandingsError::Streak);
    check(&|t| t.magic_number = None, true, false, StandingsError::MagicNumber);
    check(&|t| t.elimination_number = None, true, true, StandingsError::EliminationNumber);
    check(
        &|t| {
            t.club_name = None;
            t.streak = None;
        },
        false,
        false,
        StandingsError::ClubName,
    );
    let mut fine = team("T", false, Some("2"), "1", "1");
    fine.magic_number = None;
    fine.elimination_number = None;
    fine.wild_card_games_back = None;
    assert!(make_row(&fine, false, false).is_ok());
}

#[test]
fn the_first_missing_thing_of_the_feed_is_named() {
    assert_eq!(render_standings(query(204, false), &None, 5), Err(StandingsError::Records));
    assert_eq!(render_standings(query(204, true), &None, 5), Err(StandingsError::Records));
    assert_eq!(render_standings(query(200, false), &five_divisions(), 5), Err(StandingsError::Division));
    let broken = |change: &dyn Fn(&mut DivisionRecord)| {
        let mut records = five_divisions();
        change(&mut records.as_mut().unwrap()[1]);
        records
    };
    assert_eq!(render_standings(query(204, false), &broken(&|d| d.short_name = None), 5), Err(StandingsError::DivisionName));
    assert_eq!(render_standings(query(204, false), &broken(&|d| d.teams = None), 5), Err(StandingsError::Teams));
    assert_eq!(render_standings(query(204, true), &broken(&|d| d.teams = None), 5), Err(StandingsError::Teams));
    assert_eq!(render_standings(query(204, false), &broken(&|d| d.updated_month = None), 5), Err(StandingsError::Timestamp));
    assert!(render_standings(query(204, true), &broken(&|d| d.updated_month = None), 5).is_ok());
    assert!(render_standings(query(203, false), &broken(&|d| d.teams = None), 5).is_ok());
    let bad_team = broken(&|d| d.teams.as_mut().unwrap()[1].streak = None);
    assert_eq!(render_standings(query(204, false), &bad_team, 5), Err(StandingsError::Streak));
    assert_eq!(render_standings(query(204, true), &bad_team, 5), Err(StandingsError::Streak));
    let first_division_with_the_id = Some(vec![division(204, "First", 5, Vec::new()), division(204, "Second", 5, Vec::new())]);
    assert_eq!(render_standings(query(204, false), &first_division_with_the_id, 5).unwrap().title, "First Standings");
}

#[test]
fn columns_are_as_wide_as_their_longest_cell_in_bytes() {
    let row = |name: &str, third: &str| Row {
        marker: " ".to_string(),
        name: name.to_string(),
        percentage: ".5".to_string(),
        third: third.to_string(),
        fourth: "W10".to_string(),
    };
    let rows = vec![row("Diamondbacks", "\u{2014}"), row("Cañeros", "1")];
    let w = measure(&rows, false);
    assert_eq!((w.name, w.percentage, w.third, w.fourth), (12, 4, 3, 6));
    let late = measure(&rows, true);
    assert_eq!((late.name, late.percentage, late.third, late.fourth), (12, 4, 3, 3));
    let empty = measure(&Vec::new(), true);
    assert_eq!((empty.name, empty.percentage, empty.third, empty.fourth), (4, 4, 2, 2));
    let expected = format!(
        "```\n  {:<12}  {:<4}  {:<3}  {:<6}\n  {:<12}  {:<4}  {:<3}  {:<6}\n  {:<12}  {:<4}  {:<3}  {:<6}\n```",
        "Team", "WPCT", "GB", "Streak", "Diamondbacks", ".5", "\u{2014}", "W10", "Cañeros", ".5", "1", "W10"
    );
    assert_eq!(render_table(&rows, false, false), expected);
    assert_eq!(render_table(&Vec::new(), true, true), "```\n  Team  WPCT  M#  E#\n```");
}

#[test]
fn a_command_names_league_division_and_table() {
    let q = |content: &str| {
        let r = parse_query(content);
        (r.league_id, r.division_id, r.wild_card)
    };
    assert_eq!(q("~st"), (104, 204, false));
    assert_eq!(q("~standings"), (104, 204, false));
    assert_eq!(q("~st al"), (103, 201, false));
    assert_eq!(q("~st AL West"), (103, 200, false));
    assert_eq!(q("~st american c"), (103, 202, false));
    assert_eq!(q("~st a w"), (103, 200, false));
    assert_eq!(q("~st west"), (104, 203, false));
    assert_eq!(q("~st CENTRAL"), (104, 205, false));
    assert_eq!(q("~st central west"), (104, 203, false));
    assert_eq!(q("~st east"), (104, 204, false));
    assert_eq!(q("~st nl"), (104, 204, false));
    assert_eq!(q("~st wc"), (104, 204, true));
    assert_eq!(q("~st al WC"), (103, 201, true));
    assert_eq!(q("~wc"), (104, 204, true));
    assert_eq!(q("~wc al"), (103, 201, true));
    assert_eq!(q("~wildcard american"), (103, 201, true));
    assert_eq!(q("~wcx"), (104, 204, true));
    assert_eq!(q("~st wildcard"), (104, 204, false));
    assert_eq!(q("~st wild card"), (104, 204, false));
    assert_eq!(q("~st wild c"), (104, 205, false));
    assert_eq!(q(" ~wc"), (104, 204, false));
    assert_eq!(q(""), (104, 204, false));
    assert_eq!(q("~standings\tAl\nw"), (103, 200, false));
}

#[test]
fn the_address_holds_the_league() {
    assert_eq!(standings_url(104), "https://statsapi.mlb.com/api/v1/standings?leagueId=104&hydrate=team,division");
    assert_eq!(standings_url(103), "https://statsapi.mlb.com/api/v1/standings?leagueId=103&hydrate=team,division");
    assert_eq!(standings_url(parse_query("~st al").league_id), standings_url(103));
}

fn doc(text: &str) -> Document {
    Document::decode(text).unwrap()
}

fn feed(updated: &str) -> String {
    format!(
        r#"{{"records":[
  {{"division":{{"id":203,"nameShort":"NL West"}},"lastUpdated":"2024-06-01T00:00:00Z","teamRecords":[
    {{"team":{{"clubName":"Dodgers"}},"divisionLeader":true,"winningPercentage":".620","gamesBack":"-","wildCardGamesBack":"-","streak":{{"streakCode":"W1"}},"magicNumber":"-","eliminationNumber":"-"}}]}},
  {{"division":{{"id":204,"nameShort":"NL East"}},"lastUpdated":"{updated}","teamRecords":[
    {{"team":{{"clubName":"Braves"}},"divisionLeader":true,"winningPercentage":".650","gamesBack":"-","wildCardGamesBack":"-","streak":{{"streakCode":"W3"}},"magicNumber":"8","eliminationNumber":"-"}},
    {{"team":{{"clubName":"Phillies"}},"divisionLeader":false,"wildCardRank":"1","winningPercentage":".600","gamesBack":"2.5","wildCardGamesBack":"+3.0","streak":{{"streakCode":"L1"}},"magicNumber":"-","eliminationNumber":"20"}}]}}
]}}"#
    )
}

#[test]
fn a_division_goes_by_the_month_of_its_last_update() {
    let early = standings_in_month("~st", &doc(&feed("2024-08-31T23:59:59Z")), 12).unwrap();
    assert_eq!(early.title, "NL East Standings");
    assert_eq!(
        early.description.unwrap(),
        "```\n  Team      WPCT  GB   Streak\nD Braves    .650  -    W3    \n1 Phillies  .600  2.5  L1    \n```"
    );
    let late = standings_in_month("~st", &doc(&feed("2024-09-01T00:00:00Z")), 1).unwrap();
    assert_eq!(
        late.description.clone().unwrap(),
        "```\n  Team      WPCT  M#  E#\nD Braves    .650  8   - \n1 Phillies  .600  -   20\n```"
    );
    let spaced = standings_in_month("~st", &doc(&feed("2024-12-12 12:12:12+00:00")), 1).unwrap();
    assert!(spaced.description.unwrap().contains("M#"));
    let shifted = standings_in_month("~st", &doc(&feed("2024-09-01T01:00:00+02:00")), 1).unwrap();
    assert!(shifted.description.unwrap().contains("GB"));
    assert_eq!(Handler::new().standings("~st", &doc(&feed("2024-09-01T00:00:00Z"))), Ok(late));
}

#[test]
fn a_feed_is_read_and_ranked() {
    let e = standings_in_month("~wc", &doc(&feed("2024-08-31T23:59:59Z")), 7).unwrap();
    assert_eq!(e.title, "NL Wild Card Standings");
    assert_eq!(
        e.description.clone().unwrap(),
        "```\n  Team      WPCT  GB    Streak\nD Dodgers   .620  -     W1    \nD Braves    .650  -     W3    \n1 Phillies  .600  +3.0  L1    \n------------------------------\n```"
    );
    let now = Handler::new().standings("~wc", &doc(&feed("whenever"))).unwrap();
    assert_eq!(now.title, "NL Wild Card Standings");
    let late = standings_in_month("~wc", &doc(&feed("x")), 9).unwrap();
    assert!(now.description == e.description || now.description == late.description);
}

#[test]
fn a_feed_that_cannot_be_read_is_refused() {
    assert_eq!(standings_in_month("~st", &doc("{}"), 5), Err(StandingsError::Records));
    assert_eq!(standings_in_month("~st", &doc("{\"records\":[]}"), 5), Err(StandingsError::Division));
    assert_eq!(standings_in_month("~st", &doc(&feed("yesterday")), 5), Err(StandingsError::Timestamp));
    assert_eq!(standings_in_month("~st", &doc(&feed("2024-09-01")), 5), Err(StandingsError::Timestamp));
    assert_eq!(standings_in_month("~st al", &doc(&feed("2024-09-01T00:00:00Z")), 5), Err(StandingsError::Division));
    let records = read_records(&Document::decode("{\"records\":[{},{\"teamRecords\":[{}]}]}").unwrap()).unwrap();
    assert_eq!(records.len(), 2);
    assert_eq!(records[0], DivisionRecord { id: None, short_name: None, updated_month: None, teams: None });
    assert_eq!(records[1].teams.as_ref().unwrap().len(), 1);
    assert_eq!(records[1].teams.as_ref().unwrap()[0].club_name, None);
    assert!(!records[1].teams.as_ref().unwrap()[0].division_leader);
}

#[test]
fn standings_errors_have_words() {
    assert_eq!(StandingsError::Records.message(), "Could not get standings");
    assert_eq!(StandingsError::Division.message(), "Could not find division");
    assert_eq!(StandingsError::DivisionName.message(), "Could not get division name");
    assert_eq!(StandingsError::Teams.message(), "Could not get divisions teams");
    assert_eq!(StandingsError::Timestamp.message(), "Could not get last updated timestamp");
    assert_eq!(StandingsError::WildCardRank.message(), "Could not parse wild card rank");
    assert_eq!(StandingsError::ClubName.message(), "Could not get club name");
    assert_eq!(StandingsError::WinningPercentage.message(), "Could not get team's WPCT");
    assert_eq!(StandingsError::MagicNumber.message(), "Could not get magic number");
    assert_eq!(StandingsError::GamesBack.message(), "Could not get games back");
    assert_eq!(StandingsError::EliminationNumber.message(), "Could not get elimination number");
    assert_eq!(StandingsError::Streak.message(), "Could not get streak");
}
