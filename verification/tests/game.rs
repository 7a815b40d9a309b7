use bunt::game::{
    find_next_game, read_schedule, request_url, schedule_url, snapshot_url, Handler, Outcome,
    Query, Request, ResolveError, ScheduleEntry, ATLANTA_BRAVES_TEAM_ID,
};
use bunt::json::{DecodeError, Document};

fn arrived(body: &str) -> Result<Document, DecodeError> {
    Document::decode(body)
}

fn ask(request: Request) -> Query {
    Query { request, ended: 0 }
}

fn snapshot_of(id: i64, ended: u64) -> Outcome {
    Outcome::Ask(Query { request: Request::Snapshot(id), ended })
}

fn schedule_after(ended: u64) -> Outcome {
    Outcome::Ask(Query { request: Request::Schedule, ended })
}

fn game(pk: i64, home: i64, away: i64, state: &str) -> String {
    format!(
        "{{\"gamePk\":{pk},\"teams\":{{\"home\":{{\"team\":{{\"id\":{home}}}}},\"away\":{{\"team\":{{\"id\":{away}}}}}}},\"status\":{{\"abstractGameState\":\"{state}\"}}}}"
    )
}

fn schedule(dates: &[Vec<String>]) -> String {
    let dates: Vec<String> = dates.iter().map(|games| format!("{{\"games\":[{}]}}", games.join(","))).collect();
    format!("{{\"dates\":[{}]}}", dates.join(","))
}

fn snapshot(state: &str) -> String {
    format!("{{\"scoreboard\":{{\"status\":{{\"abstractGameState\":\"{state}\"}}}},\"exit_velocity\":[]}}")
}

fn entry(pk: i64, home: i64, away: i64, finished: bool) -> ScheduleEntry {
    ScheduleEntry { game_pk: Some(pk), home_team: Some(home), away_team: Some(away), finished }
}

#[test]
fn the_first_open_game_of_the_club_is_chosen() {
    let entries = vec![
        entry(1, 144, 121, true),
        entry(2, 120, 121, false),
        entry(3, 121, 144, false),
        entry(4, 144, 120, false),
    ];
    assert_eq!(find_next_game(&entries, 144), Ok(Some(3)));
    assert_eq!(find_next_game(&entries, 120), Ok(Some(2)));
    assert_eq!(find_next_game(&entries, 999), Ok(None));
    assert_eq!(find_next_game(&Vec::new(), 144), Ok(None));
}

#[test]
fn a_schedule_of_ended_games_has_no_next_game() {
    let entries = vec![entry(1, 144, 121, true), entry(2, 121, 144, true)];
    assert_eq!(find_next_game(&entries, 144), Ok(None));
}

#[test]
fn a_chosen_game_without_identifier_is_an_error() {
    let entries = vec![
        ScheduleEntry { game_pk: None, home_team: Some(1), away_team: Some(2), finished: false },
        ScheduleEntry { game_pk: None, home_team: Some(144), away_team: Some(2), finished: false },
        entry(3, 144, 2, false),
    ];
    assert_eq!(find_next_game(&entries, 144), Err(ResolveError::NoGameId));
    assert_eq!(find_next_game(&entries, 1), Err(ResolveError::NoGameId));
}

#[test]
fn a_schedule_is_read_date_by_date() {
    let body = schedule(&[
        vec![game(10, 144, 121, "Final"), game(11, 1, 2, "Live")],
        vec![],
        vec![game(12, 3, 144, "Preview")],
    ]);
    let doc = Document::decode(&body).unwrap();
    assert_eq!(
        read_schedule(&doc),
        Some(vec![entry(10, 144, 121, true), entry(11, 1, 2, false), entry(12, 3, 144, false)])
    );
}

#[test]
fn members_of_the_wrong_kind_read_as_missing() {
    let body = "{\"dates\":[{\"games\":[{\"gamePk\":\"12\",\"teams\":{\"home\":{\"team\":{\"id\":144.0}},\"away\":7},\"status\":{\"abstractGameState\":\"final\"}}]}]}";
    let doc = Document::decode(body).unwrap();
    assert_eq!(
        read_schedule(&doc),
        Some(vec![ScheduleEntry { game_pk: None, home_team: None, away_team: None, finished: false }])
    );
}

#[test]
fn a_schedule_without_dates_or_games_cannot_be_read() {
    assert_eq!(read_schedule(&Document::decode("{}").unwrap()), None);
    assert_eq!(read_schedule(&Document::decode("{\"dates\":{}}").unwrap()), None);
    assert_eq!(read_schedule(&Document::decode("{\"dates\":[{\"games\":[]},{}]}").unwrap()), None);
    assert_eq!(read_schedule(&Document::decode("{\"dates\":[]}").unwrap()), Some(Vec::new()));
}

#[test]
fn resolution_remembers_the_first_open_game() {
    let body = schedule(&[
        vec![game(1, ATLANTA_BRAVES_TEAM_ID, 121, "Final")],
        vec![game(2, 120, 121, "Live"), game(3, 121, ATLANTA_BRAVES_TEAM_ID, "Preview")],
        vec![game(4, ATLANTA_BRAVES_TEAM_ID, 121, "Preview")],
    ]);
    let mut handler = Handler::new();
    assert_eq!(handler.start(), ask(Request::Schedule));
    assert_eq!(handler.resume(ask(Request::Schedule), arrived(&body)), snapshot_of(3, 0));
    assert_eq!(handler.start(), ask(Request::Snapshot(3)));
    let live = snapshot("Live");
    assert_eq!(handler.resume(ask(Request::Snapshot(0)), arrived(&live)), Outcome::Game(Document::decode(&live).unwrap()));
    assert_eq!(handler.start(), ask(Request::Snapshot(3)));
    assert_eq!(handler.resume(ask(Request::Snapshot(0)), arrived(&live)), Outcome::Game(Document::decode(&live).unwrap()));
    assert_eq!(handler.start(), ask(Request::Snapshot(3)));
}

#[test]
fn a_finished_game_is_forgotten_and_replaced() {
    let before = schedule(&[vec![game(3, 121, 144, "Live"), game(4, 144, 121, "Preview")]]);
    let after = schedule(&[vec![game(3, 121, 144, "Final"), game(4, 144, 121, "Preview")]]);
    let mut handler = Handler::new();
    assert_eq!(handler.resume(ask(Request::Schedule), arrived(&before)), snapshot_of(3, 0));
    assert_eq!(handler.resume(ask(Request::Snapshot(0)), arrived(&snapshot("Final"))), schedule_after(1));
    assert_eq!(handler.start(), ask(Request::Schedule));
    let next = Query { request: Request::Schedule, ended: 1 };
    assert_eq!(handler.resume(next, arrived(&after)), snapshot_of(4, 1));
    assert_eq!(handler.start(), ask(Request::Snapshot(4)));
}

#[test]
fn a_finished_last_game_leaves_no_game() {
    let after = schedule(&[vec![game(3, 121, 144, "Final")]]);
    let mut handler = Handler::new();
    assert_eq!(handler.resume(ask(Request::Schedule), arrived(&schedule(&[vec![game(3, 121, 144, "Live")]]))), snapshot_of(3, 0));
    assert_eq!(handler.resume(ask(Request::Snapshot(0)), arrived(&snapshot("Final"))), schedule_after(1));
    assert_eq!(handler.resume(ask(Request::Schedule), arrived(&after)), Outcome::NoGame);
    assert_eq!(handler.start(), ask(Request::Schedule));
}

#[test]
fn failures_leave_what_is_remembered() {
    let mut handler = Handler::new();
    assert_eq!(handler.resume(ask(Request::Schedule), arrived("not json")), Outcome::Failed(ResolveError::Undecodable));
    assert_eq!(handler.resume(ask(Request::Schedule), arrived("{\"dates\":3}")), Outcome::Failed(ResolveError::NoGames));
    assert_eq!(handler.start(), ask(Request::Schedule));
    assert_eq!(handler.resume(ask(Request::Schedule), arrived(&schedule(&[vec![game(8, 144, 1, "Live")]]))), snapshot_of(8, 0));
    assert_eq!(handler.resume(ask(Request::Snapshot(0)), arrived("{")), Outcome::Failed(ResolveError::Undecodable));
    assert_eq!(handler.start(), ask(Request::Snapshot(8)));
    assert_eq!(handler.resume(ask(Request::Schedule), arrived("[]")), Outcome::Failed(ResolveError::NoGames));
    assert_eq!(handler.start(), ask(Request::Snapshot(8)));
    let no_id = "{\"dates\":[{\"games\":[{\"teams\":{\"home\":{\"team\":{\"id\":144}}}}]}]}";
    assert_eq!(handler.resume(ask(Request::Schedule), arrived(no_id)), Outcome::Failed(ResolveError::NoGameId));
    assert_eq!(handler.start(), ask(Request::Snapshot(8)));
}

#[test]
fn only_the_state_final_ends_a_game() {
    for state in ["Live", "Preview", "final", "Finals", ""] {
        let mut handler = Handler::new();
        let entries = vec![entry(5, 144, 1, false)];
        assert_eq!(handler.take_entries(0, &entries), snapshot_of(5, 0));
        let body = snapshot(state);
        assert_eq!(handler.resume(ask(Request::Snapshot(0)), arrived(&body)), Outcome::Game(Document::decode(&body).unwrap()));
        assert_eq!(handler.start(), ask(Request::Snapshot(5)));
    }
    let mut handler = Handler::new();
    handler.take_entries(0, &vec![entry(5, 144, 1, false)]);
    assert_eq!(handler.resume(ask(Request::Snapshot(0)), arrived("{}")), Outcome::Game(Document::decode("{}").unwrap()));
}

#[test]
fn the_schedule_and_the_snapshot_are_taken_as_documents() {
    let mut handler = Handler::new();
    let body = schedule(&[vec![game(21, 144, 5, "Preview")]]);
    assert_eq!(handler.take_schedule(0, &Document::decode(&body).unwrap()), snapshot_of(21, 0));
    assert_eq!(handler.take_schedule(0, &Document::decode("7").unwrap()), Outcome::Failed(ResolveError::NoGames));
    assert_eq!(handler.start(), ask(Request::Snapshot(21)));
    assert_eq!(handler.take_snapshot(0, Document::decode(&snapshot("Final")).unwrap()), schedule_after(1));
    assert_eq!(handler.start(), ask(Request::Schedule));
    assert_eq!(handler.resume(ask(Request::Schedule), Err(DecodeError::Malformed)), Outcome::Failed(ResolveError::Undecodable));
    assert_eq!(handler.resume(ask(Request::Snapshot(21)), Err(DecodeError::Malformed)), Outcome::Failed(ResolveError::Undecodable));
}

#[test]
fn resolve_errors_have_words() {
    assert_eq!(ResolveError::Undecodable.message(), "Could not decode the response");
    assert_eq!(ResolveError::NoGames.message(), "Could not get the games of the schedule");
    assert_eq!(ResolveError::NoGameId.message(), "Could not get game id");
    assert_eq!(ResolveError::Unsettled.message(), "Could not settle on a game");
    assert_eq!(DecodeError::Malformed.message(), "Could not decode the response");
}

#[test]
fn a_query_that_meets_too_many_ended_games_stops() {
    let body = schedule(&[vec![game(3, 121, 144, "Live"), game(4, 144, 121, "Preview")]]);
    let mut handler = Handler::new();
    let mut query = handler.start();
    let mut rounds = 0;
    let end = loop {
        let fetched = match query.request {
            Request::Schedule => arrived(&body),
            Request::Snapshot(_) => arrived(&snapshot("Final")),
        };
        match handler.resume(query, fetched) {
            Outcome::Ask(next) => query = next,
            other => break other,
        }
        rounds += 1;
        assert!(rounds < 100);
    };
    assert_eq!(end, Outcome::Failed(ResolveError::Unsettled));
    assert_eq!(rounds, 6);
    assert_eq!(handler.start(), ask(Request::Schedule));
    let entries = vec![entry(3, 121, 144, false), entry(4, 144, 121, false)];
    assert_eq!(handler.take_entries(2, &entries), snapshot_of(3, 2));
    assert_eq!(handler.take_entries(3, &entries), Outcome::Failed(ResolveError::Unsettled));
    assert_eq!(handler.take_entries(u64::MAX, &Vec::new()), Outcome::NoGame);
    assert_eq!(handler.take_snapshot(u64::MAX, Document::decode(&snapshot("Final")).unwrap()), schedule_after(u64::MAX));
    assert_eq!(handler.take_snapshot(6, Document::decode(&snapshot("Final")).unwrap()), schedule_after(7));
}

#[test]
fn addresses_hold_year_and_game() {
    assert_eq!(
        schedule_url(2024),
        "https://statsapi.mlb.com/api/v1/schedule/games/?sportId=1&startDate=2024-01-01&endDate=2024-12-31&hydrate=venue(timezone)"
    );
    assert_eq!(
        schedule_url(-5),
        "https://statsapi.mlb.com/api/v1/schedule/games/?sportId=1&startDate=-5-01-01&endDate=-5-12-31&hydrate=venue(timezone)"
    );
    assert_eq!(snapshot_url(747123), "https://baseballsavant.mlb.com/gf?game_pk=747123");
    assert_eq!(snapshot_url(i64::MIN), "https://baseballsavant.mlb.com/gf?game_pk=-9223372036854775808");
    assert_eq!(request_url(Request::Snapshot(7)), "https://baseballsavant.mlb.com/gf?game_pk=7");
    let url = request_url(Request::Schedule);
    assert!(url.starts_with("https://statsapi.mlb.com/api/v1/schedule/games/?sportId=1&startDate="));
    assert!(url.ends_with("-12-31&hydrate=venue(timezone)"));
}
