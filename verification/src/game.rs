//! Which game is the current one.
//!
//! The library remembers at most one game identifier. A query first asks for
//! the live snapshot of the remembered game; with nothing remembered it asks
//! for the season's schedule and remembers the first game of the club that
//! has not ended. A snapshot of a game that has ended makes it forget the
//! game and ask for the schedule again. The caller fetches what is asked for
//! and hands the body back; every decision is taken here.

use crate::clock::year_now;
use crate::json::int_of;
use crate::json::items_of;
use crate::json::json_of;
use crate::json::member;
use crate::json::text_is;
use crate::json::DecodeError;
use crate::json::Document;
use crate::json::Json;
use crate::text::push_signed;
use crate::text::signed_decimal;
use serde_json::Value;
use vstd::prelude::*;
use vstd::string::StringExecFns;

verus! {

/// The club that the library reports on.
pub const ATLANTA_BRAVES_TEAM_ID: i64 = 144;

/// The league of that club.
pub const NL_LEAGUE_ID: i64 = 104;

/// The division of that club.
pub const NL_EAST_DIVISION_ID: i64 = 204;

/// One game of a schedule, as far as the library reads it.
#[derive(Clone, Copy, PartialEq, Eq, Structural, Debug)]
pub struct ScheduleEntry {
    /// The identifier of the game.
    pub game_pk: Option<i64>,
    /// The identifier of the home team.
    pub home_team: Option<i64>,
    /// The identifier of the away team.
    pub away_team: Option<i64>,
    /// Whether the game has ended: its state is `Final`.
    pub finished: bool,
}

impl ScheduleEntry {
    /// Whether `team` plays in this game.
    pub open spec fn involves(self, team: i64) -> bool {
        self.home_team == Some(team) || self.away_team == Some(team)
    }

    /// Whether this is a game of `team` that has not ended.
    pub open spec fn is_open_for(self, team: i64) -> bool {
        self.involves(team) && !self.finished
    }

    /// Whether this is a game of `team` that has not ended.
    pub fn open_for(&self, team: i64) -> (r: bool)
        ensures
            r == self.is_open_for(team),
    {
        let home = match self.home_team {
            Some(t) => t == team,
            None => false,
        };
        let away = match self.away_team {
            Some(t) => t == team,
            None => false,
        };
        (home || away) && !self.finished
    }
}

/// Why no game could be named.
#[derive(Clone, Copy, PartialEq, Eq, Structural, Debug)]
pub enum ResolveError {
    /// A body is no JSON document.
    Undecodable,
    /// The schedule has no list of dates, or a date has no list of games.
    NoGames,
    /// The game that was found has no identifier.
    NoGameId,
    /// The feeds do not agree: the query has met more ended games than the
    /// schedule holds, and the schedule still names a game that has not
    /// ended.
    Unsettled,
}

impl ResolveError {
    /// The error in words.
    pub open spec fn text(self) -> Seq<char> {
        match self {
            ResolveError::Undecodable => "Could not decode the response"@,
            ResolveError::NoGames => "Could not get the games of the schedule"@,
            ResolveError::NoGameId => "Could not get game id"@,
            ResolveError::Unsettled => "Could not settle on a game"@,
        }
    }

    /// The error in words, for a log.
    pub fn message(&self) -> (r: &'static str)
        ensures
            r@ == self.text(),
    {
        match self {
            ResolveError::Undecodable => "Could not decode the response",
            ResolveError::NoGames => "Could not get the games of the schedule",
            ResolveError::NoGameId => "Could not get game id",
            ResolveError::Unsettled => "Could not settle on a game",
        }
    }
}

/// Whether the state that a game or a snapshot reports is the final one.
pub open spec fn is_final(status: Json) -> bool {
    status.at("abstractGameState"@).as_str() == Some("Final"@)
}

/// The schedule entry that a game of the schedule feed holds.
pub open spec fn entry_of(game: Json) -> ScheduleEntry {
    ScheduleEntry {
        game_pk: game.at("gamePk"@).as_i64(),
        home_team: game.at("teams"@).at("home"@).at("team"@).at("id"@).as_i64(),
        away_team: game.at("teams"@).at("away"@).at("team"@).at("id"@).as_i64(),
        finished: is_final(game.at("status"@)),
    }
}

/// The entries of the first `n` dates of a schedule, in order; `None` where
/// one of these dates has no list of games.
pub open spec fn entries_upto(dates: Seq<Json>, n: int) -> Option<Seq<ScheduleEntry>>
    decreases n,
{
    if n <= 0 {
        Some(Seq::empty())
    } else {
        match (entries_upto(dates, n - 1), dates[n - 1].at("games"@).as_array()) {
            (Some(before), Some(games)) => Some(before + games.map_values(|g: Json| entry_of(g))),
            _ => None,
        }
    }
}

/// The entries of a schedule document, in the order of the feed.
pub open spec fn schedule_of(doc: Json) -> Option<Seq<ScheduleEntry>> {
    match doc.at("dates"@).as_array() {
        Some(dates) => entries_upto(dates, dates.len() as int),
        None => None,
    }
}

fn read_entry(game: &Value) -> (r: ScheduleEntry)
    ensures
        r == entry_of(json_of(*game)),
{
    let g = Some(game);
    let teams = member(g, "teams");
    ScheduleEntry {
        game_pk: int_of(member(g, "gamePk")),
        home_team: int_of(member(member(member(teams, "home"), "team"), "id")),
        away_team: int_of(member(member(member(teams, "away"), "team"), "id")),
        finished: text_is(member(member(g, "status"), "abstractGameState"), "Final"),
    }
}

/// Reads the entries of a schedule document.
pub fn read_schedule(doc: &Document) -> (r: Option<Vec<ScheduleEntry>>)
    ensures
        match r {
            Some(v) => Some(v@),
            None => None,
        } == schedule_of(doc@),
{
    let dates = match items_of(member(doc.root(), "dates")) {
        Some(d) => d,
        None => {
            return None;
        },
    };
    let ghost date_models = doc@.at("dates"@).as_array()->Some_0;
    let mut out: Vec<ScheduleEntry> = Vec::new();
    let mut i: usize = 0;
    while i < dates.len()
        invariant
            i <= dates.len(),
            dates@.len() == date_models.len(),
            forall|k: int| 0 <= k < dates@.len() ==> json_of(#[trigger] dates@[k]) == date_models[k],
            doc@.at("dates"@).as_array() == Some(date_models),
            entries_upto(date_models, i as int) == Some(out@),
        decreases dates.len() - i,
    {
        let games = match items_of(member(Some(&dates[i]), "games")) {
            Some(g) => g,
            None => {
                proof {
                    assert(date_models[i as int].at("games"@).as_array() is None);
                    assert(entries_upto(date_models, i + 1) is None);
                    lemma_entries_stay_missing(date_models, i + 1, date_models.len() as int);
                }
                return None;
            },
        };
        let ghost game_models = date_models[i as int].at("games"@).as_array()->Some_0;
        let ghost before = out@;
        let mut j: usize = 0;
        while j < games.len()
            invariant
                j <= games.len(),
                games@.len() == game_models.len(),
                forall|k: int|
                    0 <= k < games@.len() ==> json_of(#[trigger] games@[k]) == game_models[k],
                out@ == before + game_models.take(j as int).map_values(|g: Json| entry_of(g)),
            decreases games.len() - j,
        {
            out.push(read_entry(&games[j]));
            assert(out@ =~= before + game_models.take(j + 1).map_values(|g: Json| entry_of(g)));
            j += 1;
        }
        assert(game_models.take(games.len() as int) =~= game_models);
        i += 1;
    }
    Some(out)
}

/// Once a date without games has been met, the schedule has no entries,
/// however many dates follow.
pub proof fn lemma_entries_stay_missing(dates: Seq<Json>, n: int, m: int)
    requires
        0 <= n <= m,
        entries_upto(dates, n) is None,
    ensures
        entries_upto(dates, m) is None,
    decreases m - n,
{
    if n < m {
        lemma_entries_stay_missing(dates, n, m - 1);
    }
}

/// The position of the first game at or behind `from` that `team` plays and
/// that has not ended.
pub open spec fn first_open(entries: Seq<ScheduleEntry>, team: i64, from: int) -> Option<int>
    decreases entries.len() - from,
{
    if from >= entries.len() {
        None
    } else if entries[from].is_open_for(team) {
        Some(from)
    } else {
        first_open(entries, team, from + 1)
    }
}

/// The game to follow next: the first of the schedule that `team` plays and
/// that has not ended. No such game is no error; such a game without an
/// identifier is one.
pub open spec fn next_game(entries: Seq<ScheduleEntry>, team: i64) -> Result<
    Option<i64>,
    ResolveError,
> {
    match first_open(entries, team, 0) {
        None => Ok(None),
        Some(k) => match entries[k].game_pk {
            Some(id) => Ok(Some(id)),
            None => Err(ResolveError::NoGameId),
        },
    }
}

/// Finds the game to follow next.
pub fn find_next_game(entries: &Vec<ScheduleEntry>, team: i64) -> (r: Result<
    Option<i64>,
    ResolveError,
>)
    ensures
        r == next_game(entries@, team),
{
    let mut i: usize = 0;
    while i < entries.len()
        invariant
            i <= entries.len(),
            first_open(entries@, team, 0) == first_open(entries@, team, i as int),
        decreases entries.len() - i,
    {
        if entries[i].open_for(team) {
            return match entries[i].game_pk {
                Some(id) => Ok(Some(id)),
                None => Err(ResolveError::NoGameId),
            };
        }
        i += 1;
    }
    Ok(None)
}

/// What [`first_open`] finds is a game of `team` that has not ended, and no
/// game before it is one; it finds nothing only where there is none.
pub proof fn lemma_first_open(entries: Seq<ScheduleEntry>, team: i64, from: int)
    requires
        0 <= from,
    ensures
        match first_open(entries, team, from) {
            Some(k) => from <= k < entries.len() && entries[k].is_open_for(team) && forall|j: int|
                from <= j < k ==> !(#[trigger] entries[j]).is_open_for(team),
            None => forall|j: int|
                from <= j < entries.len() ==> !(#[trigger] entries[j]).is_open_for(team),
        },
    decreases entries.len() - from,
{
    if from < entries.len() && !entries[from].is_open_for(team) {
        lemma_first_open(entries, team, from + 1);
    }
}

/// What the caller is to fetch.
#[derive(Clone, Copy, PartialEq, Eq, Structural, Debug)]
pub enum Request {
    /// The schedule of the season.
    Schedule,
    /// The live snapshot of the game with this identifier.
    Snapshot(i64),
}

/// A query for the current game that waits for something to be fetched.
#[derive(Clone, Copy, PartialEq, Eq, Structural, Debug)]
pub struct Query {
    /// What the caller is to fetch.
    pub request: Request,
    /// How many games this query has found ended so far.
    pub ended: u64,
}

/// Where a query for the current game stands.
#[derive(Debug, PartialEq, Eq)]
pub enum Outcome {
    /// The caller is to fetch what the query asks for and hand it back.
    Ask(Query),
    /// The current game, with its live snapshot.
    Game(Document),
    /// The club has no game left on the schedule.
    NoGame,
    /// The query failed.
    Failed(ResolveError),
}

/// What an [`Outcome`] holds.
pub enum OutcomeView {
    Ask(Query),
    Game(Json),
    NoGame,
    Failed(ResolveError),
}

impl View for Outcome {
    type V = OutcomeView;

    open spec fn view(&self) -> OutcomeView {
        match self {
            Outcome::Ask(q) => OutcomeView::Ask(*q),
            Outcome::Game(d) => OutcomeView::Game(d@),
            Outcome::NoGame => OutcomeView::NoGame,
            Outcome::Failed(e) => OutcomeView::Failed(*e),
        }
    }
}

/// How a query begins: it asks for the snapshot of the remembered game, or
/// for the schedule where no game is remembered, and has met no ended game.
pub open spec fn first_query(remembered: Option<i64>) -> Query {
    Query {
        request: match remembered {
            Some(id) => Request::Snapshot(id),
            None => Request::Schedule,
        },
        ended: 0,
    }
}

/// What is remembered, and how the query goes on, once the entries of the
/// schedule are known. The game to follow next is remembered and its
/// snapshot asked for; where there is none, nothing is remembered. A query
/// that has met more ended games than the schedule has entries stops here
/// and leaves nothing remembered.
pub open spec fn after_entries(
    remembered: Option<i64>,
    ended: u64,
    entries: Seq<ScheduleEntry>,
    team: i64,
) -> (Option<i64>, OutcomeView) {
    match next_game(entries, team) {
        Ok(Some(id)) => if ended > entries.len() {
            (None, OutcomeView::Failed(ResolveError::Unsettled))
        } else {
            (Some(id), OutcomeView::Ask(Query { request: Request::Snapshot(id), ended }))
        },
        Ok(None) => (None, OutcomeView::NoGame),
        Err(e) => (remembered, OutcomeView::Failed(e)),
    }
}

/// What is remembered, and how the query goes on, once the schedule has
/// arrived.
pub open spec fn after_schedule(remembered: Option<i64>, ended: u64, schedule: Json, team: i64)
    -> (Option<i64>, OutcomeView) {
    match schedule_of(schedule) {
        None => (remembered, OutcomeView::Failed(ResolveError::NoGames)),
        Some(entries) => after_entries(remembered, ended, entries, team),
    }
}

/// One more ended game, as far as the count goes.
pub open spec fn one_more(ended: u64) -> u64 {
    if ended < u64::MAX {
        (ended + 1) as u64
    } else {
        ended
    }
}

/// What is remembered, and how the query goes on, once a live snapshot has
/// arrived: a game that has ended is forgotten and the schedule asked for;
/// any other snapshot is the answer.
pub open spec fn after_snapshot(remembered: Option<i64>, ended: u64, snapshot: Json) -> (
    Option<i64>,
    OutcomeView,
) {
    if is_final(snapshot.at("scoreboard"@).at("status"@)) {
        (None, OutcomeView::Ask(Query { request: Request::Schedule, ended: one_more(ended) }))
    } else {
        (remembered, OutcomeView::Game(snapshot))
    }
}

/// What is remembered, and how the query goes on, once what it asked for
/// has been fetched. A body that is no document ends the query and changes
/// nothing.
pub open spec fn after_answer(
    remembered: Option<i64>,
    query: Query,
    fetched: Result<Json, DecodeError>,
    team: i64,
) -> (Option<i64>, OutcomeView) {
    match fetched {
        Err(_) => (remembered, OutcomeView::Failed(ResolveError::Undecodable)),
        Ok(doc) => match query.request {
            Request::Schedule => after_schedule(remembered, query.ended, doc, team),
            Request::Snapshot(_) => after_snapshot(remembered, query.ended, doc),
        },
    }
}

/// The single place where the current game is remembered.
#[derive(Debug)]
pub struct Handler {
    current_game_id: Option<i64>,
}

impl View for Handler {
    type V = Option<i64>;

    closed spec fn view(&self) -> Option<i64> {
        self.current_game_id
    }
}

impl Handler {
    /// A handler that remembers no game.
    pub fn new() -> (r: Handler)
        ensures
            r@ is None,
    {
        Handler { current_game_id: None }
    }

    /// Begins a query for the current game.
    pub fn start(&self) -> (r: Query)
        ensures
            r == first_query(self@),
    {
        Query {
            request: match self.current_game_id {
                Some(id) => Request::Snapshot(id),
                None => Request::Schedule,
            },
            ended: 0,
        }
    }

    /// Goes on with the entries of the schedule, in a query that has met
    /// `ended` ended games.
    pub fn take_entries(&mut self, ended: u64, entries: &Vec<ScheduleEntry>) -> (r: Outcome)
        ensures
            (final(self)@, r@) == after_entries(
                old(self)@,
                ended,
                entries@,
                ATLANTA_BRAVES_TEAM_ID,
            ),
    {
        match find_next_game(entries, ATLANTA_BRAVES_TEAM_ID) {
            Ok(Some(id)) => {
                if ended > entries.len() as u64 {
                    self.current_game_id = None;
                    Outcome::Failed(ResolveError::Unsettled)
                } else {
                    self.current_game_id = Some(id);
                    Outcome::Ask(Query { request: Request::Snapshot(id), ended })
                }
            },
            Ok(None) => {
                self.current_game_id = None;
                Outcome::NoGame
            },
            Err(e) => Outcome::Failed(e),
        }
    }

    /// Goes on with the schedule, in a query that has met `ended` ended
    /// games.
    pub fn take_schedule(&mut self, ended: u64, schedule: &Document) -> (r: Outcome)
        ensures
            (final(self)@, r@) == after_schedule(
                old(self)@,
                ended,
                schedule@,
                ATLANTA_BRAVES_TEAM_ID,
            ),
    {
        match read_schedule(schedule) {
            Some(entries) => self.take_entries(ended, &entries),
            None => Outcome::Failed(ResolveError::NoGames),
        }
    }

    /// Goes on with a live snapshot, in a query that has met `ended` ended
    /// games.
    pub fn take_snapshot(&mut self, ended: u64, snapshot: Document) -> (r: Outcome)
        ensures
            (final(self)@, r@) == after_snapshot(old(self)@, ended, snapshot@),
    {
        let status = member(member(snapshot.root(), "scoreboard"), "status");
        if text_is(member(status, "abstractGameState"), "Final") {
            self.current_game_id = None;
            let more = if ended < u64::MAX {
                ended + 1
            } else {
                ended
            };
            Outcome::Ask(Query { request: Request::Schedule, ended: more })
        } else {
            Outcome::Game(snapshot)
        }
    }

    /// Goes on with what was fetched for `query`.
    pub fn resume(&mut self, query: Query, fetched: Result<Document, DecodeError>) -> (r: Outcome)
        ensures
            (final(self)@, r@) == after_answer(
                old(self)@,
                query,
                match fetched {
                    Ok(d) => Ok(d@),
                    Err(e) => Err(e),
                },
                ATLANTA_BRAVES_TEAM_ID,
            ),
    {
        match fetched {
            Err(_) => Outcome::Failed(ResolveError::Undecodable),
            Ok(doc) => match query.request {
                Request::Schedule => self.take_schedule(query.ended, &doc),
                Request::Snapshot(_) => self.take_snapshot(query.ended, doc),
            },
        }
    }
}

/// The address of the schedule of the season `year`.
pub open spec fn schedule_address(year: int) -> Seq<char> {
    "https://statsapi.mlb.com/api/v1/schedule/games/?sportId=1&startDate="@ + signed_decimal(year)
        + "-01-01&endDate="@ + signed_decimal(year) + "-12-31&hydrate=venue(timezone)"@
}

/// The address of the live snapshot of game `game_pk`.
pub open spec fn snapshot_address(game_pk: int) -> Seq<char> {
    "https://baseballsavant.mlb.com/gf?game_pk="@ + signed_decimal(game_pk)
}

/// The address of the schedule of the season `year`.
pub fn schedule_url(year: i32) -> (r: String)
    ensures
        r@ == schedule_address(year as int),
{
    let mut out = String::new();
    out.append("https://statsapi.mlb.com/api/v1/schedule/games/?sportId=1&startDate=");
    push_signed(&mut out, year as i64);
    out.append("-01-01&endDate=");
    push_signed(&mut out, year as i64);
    out.append("-12-31&hydrate=venue(timezone)");
    assert(out@ =~= schedule_address(year as int));
    out
}

/// The address of the live snapshot of game `game_pk`.
pub fn snapshot_url(game_pk: i64) -> (r: String)
    ensures
        r@ == snapshot_address(game_pk as int),
{
    let mut out = String::new();
    out.append("https://baseballsavant.mlb.com/gf?game_pk=");
    push_signed(&mut out, game_pk);
    assert(out@ =~= snapshot_address(game_pk as int));
    out
}

/// The address to fetch for `request`. The schedule is that of the current
/// year, whichever it is.
pub fn request_url(request: Request) -> (r: String)
    ensures
        match request {
            Request::Snapshot(id) => r@ == snapshot_address(id as int),
            Request::Schedule => exists|year: i32| r@ == #[trigger] schedule_address(year as int),
        },
{
    match request {
        Request::Snapshot(id) => snapshot_url(id),
        Request::Schedule => schedule_url(year_now()),
    }
}

/// With nothing remembered, a schedule whose first game of `team` that has
/// not ended stands at position `k` makes a new query remember that game and
/// ask for its snapshot. The next query asks for the same snapshot without
/// asking for the schedule, and a snapshot of a game that has not ended
/// leaves the game remembered.
pub proof fn lemma_first_game_is_remembered(
    entries: Seq<ScheduleEntry>,
    team: i64,
    k: int,
    id: i64,
    snapshot: Json,
)
    requires
        0 <= k < entries.len(),
        entries[k].is_open_for(team),
        forall|j: int| 0 <= j < k ==> !(#[trigger] entries[j]).is_open_for(team),
        entries[k].game_pk == Some(id),
        !is_final(snapshot.at("scoreboard"@).at("status"@)),
    ensures
        first_query(None) == (Query { request: Request::Schedule, ended: 0 }),
        after_entries(None, 0, entries, team) == (
            Some(id),
            OutcomeView::Ask(Query { request: Request::Snapshot(id), ended: 0 }),
        ),
        first_query(after_entries(None, 0, entries, team).0).request == Request::Snapshot(id),
        after_snapshot(Some(id), 0, snapshot) == (Some(id), OutcomeView::Game(snapshot)),
{
    lemma_first_open(entries, team, 0);
}

/// A snapshot that reports the end of the remembered game makes the query
/// forget the game and ask for the schedule; and on a schedule that lists
/// that game as ended, the same query then remembers another game, or none.
pub proof fn lemma_finished_game_is_replaced(
    id: i64,
    ended: u64,
    snapshot: Json,
    entries: Seq<ScheduleEntry>,
    team: i64,
)
    requires
        is_final(snapshot.at("scoreboard"@).at("status"@)),
        forall|j: int|
            0 <= j < entries.len() && (#[trigger] entries[j]).game_pk == Some(id)
                ==> entries[j].finished,
    ensures
        after_snapshot(Some(id), ended, snapshot) == (
            None::<i64>,
            OutcomeView::Ask(Query { request: Request::Schedule, ended: one_more(ended) }),
        ),
        after_entries(None, one_more(ended), entries, team).0 != Some(id),
        match after_entries(None, one_more(ended), entries, team) {
            (now, OutcomeView::Ask(next)) => now matches Some(other) && other != id
                && next.request == Request::Snapshot(other),
            (now, OutcomeView::NoGame) => now is None,
            (now, OutcomeView::Failed(e)) => now is None,
            (now, OutcomeView::Game(_)) => false,
        },
{
    lemma_first_open(entries, team, 0);
}

/// A query cannot go round for ever on one schedule: once it has met more
/// ended games than the schedule has entries, the schedule ends it.
pub proof fn lemma_query_ends(
    remembered: Option<i64>,
    ended: u64,
    entries: Seq<ScheduleEntry>,
    team: i64,
)
    requires
        ended > entries.len(),
    ensures
        !(after_entries(remembered, ended, entries, team).1 is Ask),
{
}

/// Each ended game that a query meets is counted, and nothing else is: a
/// schedule hands the count on as it is.
pub proof fn lemma_ended_games_are_counted(
    remembered: Option<i64>,
    ended: u64,
    snapshot: Json,
    entries: Seq<ScheduleEntry>,
    team: i64,
)
    requires
        ended < u64::MAX,
    ensures
        after_snapshot(remembered, ended, snapshot).1 matches OutcomeView::Ask(next) ==> next.ended
            == ended + 1,
        after_entries(remembered, ended, entries, team).1 matches OutcomeView::Ask(next)
            ==> next.ended == ended,
{
}

} // verus!
