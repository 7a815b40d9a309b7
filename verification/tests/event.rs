use bunt::event::{
    describe, find_row, read_live_game, sign_for_club, BattedBallEvent, EventError, LiveGame,
    WinProbabilityEntry,
};
use bunt::game::Handler;
use bunt::json::Document;
use bunt::message::{Embed, Field};

fn hit() -> BattedBallEvent {
    BattedBallEvent {
        description: Some("Matt Olson homers (12) on a fly ball to right field.  Austin Riley scores.".to_string()),
        at_bat_number: Some(12),
        cap_index: Some(0),
        exit_velocity: Some("108.3".to_string()),
        launch_angle: Some("27".to_string()),
        distance: Some("412".to_string()),
        expected_average: Some(".920".to_string()),
        home_run_parks: Some(28),
    }
}

fn row(at_bat: u64, cap: u64, delta: &str) -> WinProbabilityEntry {
    WinProbabilityEntry { at_bat_index: Some(at_bat), cap_index: Some(cap), home_delta: Some(delta.to_string()) }
}

fn game(home_id: i64) -> LiveGame {
    LiveGame {
        home_name: Some("Braves".to_string()),
        away_name: Some("Mets".to_string()),
        home_id: Some(home_id),
        last_event: Some(hit()),
        win_probability: Some(vec![row(10, 0, "+1.5"), row(11, 0, "+9.9"), row(11, 1, "-4"), row(11, 0, "+12.25"), row(12, 0, "-7")]),
    }
}

fn inline(name: &str, value: &str) -> Field {
    Field { name: name.to_string(), value: value.to_string(), inline: true }
}

#[test]
fn the_last_ball_is_reported_for_the_home_club() {
    let expected = Embed {
        title: "Braves vs. Mets".to_string(),
        description: Some("Matt Olson homers (12) on a fly ball to right field".to_string()),
        thumbnail: None,
        fields: vec![
            inline("Exit Velocity", "108.3mph"),
            inline("Launch Angle", "27\u{c2}\u{b0}"),
            inline("Distance", "412 ft"),
            inline("xBA", ".920"),
            inline("WPA", "+12.25"),
            inline("Home Run", "28/30"),
        ],
    };
    assert_eq!(describe(&game(144), 144), Ok(Some(expected)));
}

#[test]
fn the_sign_flips_when_the_club_is_away() {
    let home = describe(&game(144), 144).unwrap().unwrap();
    let away = describe(&game(121), 144).unwrap().unwrap();
    assert_eq!(home.title, "Braves vs. Mets");
    assert_eq!(away.title, "Braves @ Mets");
    assert_eq!(home.fields[4].value, "+12.25");
    assert_eq!(away.fields[4].value, "-12.25");
    assert_eq!(home.fields[..4], away.fields[..4]);
    assert_eq!(home.fields[5], away.fields[5]);
    assert_eq!(sign_for_club(true, "-3.2"), "-3.2");
    assert_eq!(sign_for_club(false, "-3.2"), "+3.2");
    assert_eq!(sign_for_club(true, "+0"), "+0");
    assert_eq!(sign_for_club(false, "+0"), "-0");
    assert_eq!(sign_for_club(false, "3.2"), "-3.2");
    assert_eq!(sign_for_club(false, ""), "-");
}

#[test]
fn the_lookup_index_is_the_at_bat_number_less_one() {
    let mut g = game(144);
    g.win_probability = Some(vec![row(12, 0, "+1"), row(11, 0, "+2"), row(10, 0, "+3")]);
    assert_eq!(describe(&g, 144).unwrap().unwrap().fields[4].value, "+2");
    g.last_event.as_mut().unwrap().at_bat_number = Some(1);
    g.win_probability = Some(vec![row(1, 0, "+1"), row(0, 0, "+5")]);
    assert_eq!(describe(&g, 144).unwrap().unwrap().fields[4].value, "+5");
    g.last_event.as_mut().unwrap().at_bat_number = Some(0);
    assert_eq!(describe(&g, 144), Err(EventError::AtBatNumber));
}

#[test]
fn the_last_row_of_an_event_is_the_one_that_counts() {
    let rows = vec![row(3, 1, "+1"), row(3, 1, "+2"), row(3, 2, "+3"), row(4, 1, "+4")];
    assert_eq!(find_row(&rows, (3, 1)), Some(1));
    assert_eq!(find_row(&rows, (3, 2)), Some(2));
    assert_eq!(find_row(&rows, (4, 1)), Some(3));
    assert_eq!(find_row(&rows, (4, 2)), None);
    assert_eq!(find_row(&Vec::new(), (0, 0)), None);
    let partial = vec![WinProbabilityEntry { at_bat_index: Some(3), cap_index: None, home_delta: None }];
    assert_eq!(find_row(&partial, (3, 0)), None);
}

#[test]
fn a_short_ball_has_no_home_run_field() {
    let mut g = game(144);
    g.last_event.as_mut().unwrap().distance = Some("299".to_string());
    g.last_event.as_mut().unwrap().home_run_parks = None;
    let e = describe(&g, 144).unwrap().unwrap();
    assert_eq!(e.fields.len(), 5);
    assert_eq!(e.fields[2], inline("Distance", "299 ft"));
    g.last_event.as_mut().unwrap().distance = Some("300".to_string());
    assert_eq!(describe(&g, 144), Err(EventError::HomeRunParks));
    g.last_event.as_mut().unwrap().home_run_parks = Some(0);
    assert_eq!(describe(&g, 144).unwrap().unwrap().fields[5], inline("Home Run", "0/30"));
}

#[test]
fn a_game_without_batted_balls_has_nothing_to_report() {
    let g = LiveGame { home_name: None, away_name: None, home_id: None, last_event: None, win_probability: None };
    assert_eq!(describe(&g, 144), Ok(None));
}

#[test]
fn the_first_missing_thing_is_named() {
    let check = |change: &dyn Fn(&mut LiveGame), expected: EventError| {
        let mut g = game(144);
        change(&mut g);
        assert_eq!(describe(&g, 144), Err(expected));
    };
    check(&|g| g.home_name = None, EventError::HomeName);
    check(&|g| g.away_name = None, EventError::AwayName);
    check(&|g| g.home_id = None, EventError::HomeId);
    check(&|g| g.last_event.as_mut().unwrap().description = None, EventError::Description);
    check(&|g| g.last_event.as_mut().unwrap().at_bat_number = None, EventError::AtBatNumber);
    check(&|g| g.last_event.as_mut().unwrap().cap_index = None, EventError::CapIndex);
    check(&|g| g.win_probability = None, EventError::WinProbabilityTable);
    check(&|g| g.win_probability = Some(Vec::new()), EventError::WinProbabilityRow);
    check(&|g| g.last_event.as_mut().unwrap().cap_index = Some(9), EventError::WinProbabilityRow);
    check(&|g| g.last_event.as_mut().unwrap().exit_velocity = None, EventError::ExitVelocity);
    check(&|g| g.last_event.as_mut().unwrap().launch_angle = None, EventError::LaunchAngle);
    check(&|g| g.last_event.as_mut().unwrap().distance = None, EventError::Distance);
    check(&|g| g.last_event.as_mut().unwrap().distance = Some("far".to_string()), EventError::DistanceNumber);
    check(&|g| g.last_event.as_mut().unwrap().expected_average = None, EventError::ExpectedAverage);
    check(&|g| g.win_probability.as_mut().unwrap()[3].home_delta = None, EventError::WinProbability);
    check(&|g| g.last_event.as_mut().unwrap().home_run_parks = None, EventError::HomeRunParks);
    check(
        &|g| {
            g.away_name = None;
            g.last_event.as_mut().unwrap().description = None;
            g.win_probability = None;
        },
        EventError::AwayName,
    );
}

const SNAPSHOT: &str = r#"{
  "scoreboard": {
    "status": {"abstractGameState": "Live"},
    "teams": {"home": {"id": 121, "name": "Mets"}, "away": {"id": 144, "name": "Braves"}},
    "stats": {"wpa": {"gameWpa": [
      {"atBatIndex": 4, "capIndex": 0, "homeTeamWinProbabilityAdded": 1.5},
      {"atBatIndex": 5, "capIndex": 2, "homeTeamWinProbabilityAdded": -3.2},
      {"atBatIndex": 5, "capIndex": 2, "homeTeamWinProbabilityAdded": 5.0},
      {"atBatIndex": 6, "capIndex": 2, "homeTeamWinProbabilityAdded": 0}
    ]}}
  },
  "exit_velocity": [
    {"des": "First ball. Ignored.", "ab_number": 5, "cap_index": 0},
    {"des": "Ozzie Albies doubles (7) on a sharp line drive. Acuna scores.", "ab_number": 6, "cap_index": 2,
     "hit_speed": "101.0", "hit_angle": "14", "hit_distance": "255", "xba": ".610",
     "contextMetrics": {"homeRunBallparks": 0}}
  ]
}"#;

#[test]
fn a_snapshot_is_read_and_reported() {
    let doc = Document::decode(SNAPSHOT).unwrap();
    let e = Handler::new().exit_velocity(&doc).unwrap().unwrap();
    assert_eq!(e.title, "Mets @ Braves");
    assert_eq!(e.description, Some("Ozzie Albies doubles (7) on a sharp line drive".to_string()));
    assert_eq!(
        e.fields,
        vec![
            inline("Exit Velocity", "101.0mph"),
            inline("Launch Angle", "14\u{c2}\u{b0}"),
            inline("Distance", "255 ft"),
            inline("xBA", ".610"),
            inline("WPA", "-5"),
        ]
    );
}

#[test]
fn numbers_of_a_snapshot_are_read_with_their_sign() {
    let game = read_live_game(&Document::decode(SNAPSHOT).unwrap());
    let deltas: Vec<Option<String>> = game.win_probability.unwrap().into_iter().map(|r| r.home_delta).collect();
    assert_eq!(
        deltas,
        vec![Some("+1.5".to_string()), Some("-3.2".to_string()), Some("+5".to_string()), Some("+0".to_string())]
    );
    assert_eq!(game.home_id, Some(121));
    assert_eq!(game.home_name, Some("Mets".to_string()));
    assert_eq!(game.away_name, Some("Braves".to_string()));
    let last = game.last_event.unwrap();
    assert_eq!(last.at_bat_number, Some(6));
    assert_eq!(last.cap_index, Some(2));
    assert_eq!(last.home_run_parks, Some(0));
}

#[test]
fn a_snapshot_without_events_reports_nothing() {
    let none = Document::decode("{\"scoreboard\":{}}").unwrap();
    assert_eq!(Handler::new().exit_velocity(&none), Ok(None));
    let empty = Document::decode("{\"exit_velocity\":[]}").unwrap();
    assert_eq!(Handler::new().exit_velocity(&empty), Ok(None));
    let bare = Document::decode("{\"exit_velocity\":[{}]}").unwrap();
    assert_eq!(Handler::new().exit_velocity(&bare), Err(EventError::HomeName));
}

#[test]
fn members_of_the_wrong_kind_are_missing() {
    let text = r#"{"scoreboard":{"teams":{"home":{"id":"144","name":5},"away":{"name":"Mets"}},
        "stats":{"wpa":{"gameWpa":[{"atBatIndex":-1,"capIndex":1.0,"homeTeamWinProbabilityAdded":"2"}]}}},
        "exit_velocity":[{"des":null,"ab_number":"3","cap_index":-2,"hit_speed":88.1,"contextMetrics":{"homeRunBallparks":"4"}}]}"#;
    let game = read_live_game(&Document::decode(text).unwrap());
    assert_eq!(game.home_id, None);
    assert_eq!(game.home_name, None);
    assert_eq!(game.away_name, Some("Mets".to_string()));
    assert_eq!(
        game.win_probability,
        Some(vec![WinProbabilityEntry { at_bat_index: None, cap_index: None, home_delta: None }])
    );
    assert_eq!(
        game.last_event,
        Some(BattedBallEvent {
            description: None,
            at_bat_number: None,
            cap_index: None,
            exit_velocity: None,
            launch_angle: None,
            distance: None,
            expected_average: None,
            home_run_parks: None,
        })
    );
}

#[test]
fn event_errors_have_words() {
    assert_eq!(EventError::HomeName.message(), "Could not get home team name");
    assert_eq!(EventError::AwayName.message(), "Could not get away team name");
    assert_eq!(EventError::HomeId.message(), "Could not get home team id");
    assert_eq!(EventError::Description.message(), "Could not get description");
    assert_eq!(EventError::AtBatNumber.message(), "Could not get at bat number");
    assert_eq!(EventError::CapIndex.message(), "Could not get cap index");
    assert_eq!(EventError::WinProbabilityTable.message(), "Could not get WPA table");
    assert_eq!(EventError::WinProbabilityRow.message(), "WPA must exist");
    assert_eq!(EventError::ExitVelocity.message(), "Could not get hit speed");
    assert_eq!(EventError::LaunchAngle.message(), "Could not get hit angle");
    assert_eq!(EventError::Distance.message(), "Could not get hit distance");
    assert_eq!(EventError::DistanceNumber.message(), "Could not parse hit distance");
    assert_eq!(EventError::ExpectedAverage.message(), "Could not get xBA");
    assert_eq!(EventError::WinProbability.message(), "Could not get WPA");
    assert_eq!(EventError::HomeRunParks.message(), "Could not get home run ballpark quantity");
}
