//! The most recent batted ball of a live game: what is read of a snapshot,
//! and the message that reports it.

use crate::game::Handler;
use crate::game::ATLANTA_BRAVES_TEAM_ID;
use crate::json::int_of;
use crate::json::items_of;
use crate::json::json_of;
use crate::json::member;
use crate::json::signed_of;
use crate::json::text_of;
use crate::json::uint_of;
use crate::json::Document;
use crate::json::Json;
use crate::message::field;
use crate::message::opt_text;
use crate::message::Embed;
use crate::message::EmbedView;
use crate::message::Field;
use crate::message::FieldView;
use crate::text::chars_of;
use crate::text::cut_sentence;
use crate::text::decimal;
use crate::text::first_sentence;
use crate::text::parse_unsigned;
use crate::text::push_decimal;
use crate::text::slice_of;
use crate::text::push_chars;
use crate::text::unsigned_value;
use serde_json::Value;
use vstd::prelude::*;
use vstd::string::StringExecFns;

verus! {

/// One batted ball, as the live feed reports it. A member that is missing or
/// of another type is `None`.
#[derive(Clone, Debug, PartialEq, Eq)]
pub struct BattedBallEvent {
    pub description: Option<String>,
    /// The number of the at-bat, counted from 1.
    pub at_bat_number: Option<u64>,
    pub cap_index: Option<u64>,
    pub exit_velocity: Option<String>,
    pub launch_angle: Option<String>,
    pub distance: Option<String>,
    pub expected_average: Option<String>,
    /// In how many of the 30 ballparks the ball is a home run.
    pub home_run_parks: Option<u64>,
}

/// What a [`BattedBallEvent`] holds.
pub struct BattedBallEventView {
    pub description: Option<Seq<char>>,
    pub at_bat_number: Option<u64>,
    pub cap_index: Option<u64>,
    pub exit_velocity: Option<Seq<char>>,
    pub launch_angle: Option<Seq<char>>,
    pub distance: Option<Seq<char>>,
    pub expected_average: Option<Seq<char>>,
    pub home_run_parks: Option<u64>,
}

impl View for BattedBallEvent {
    type V = BattedBallEventView;

    open spec fn view(&self) -> BattedBallEventView {
        BattedBallEventView {
            description: opt_text(self.description),
            at_bat_number: self.at_bat_number,
            cap_index: self.cap_index,
            exit_velocity: opt_text(self.exit_velocity),
            launch_angle: opt_text(self.launch_angle),
            distance: opt_text(self.distance),
            expected_average: opt_text(self.expected_average),
            home_run_parks: self.home_run_parks,
        }
    }
}

/// One row of the table of win probability added.
#[derive(Clone, Debug, PartialEq, Eq)]
pub struct WinProbabilityEntry {
    /// The index of the at-bat, counted from 0.
    pub at_bat_index: Option<u64>,
    pub cap_index: Option<u64>,
    /// What the event added to the home team's probability of winning: a
    /// sign and a magnitude, as text.
    pub home_delta: Option<String>,
}

/// What a [`WinProbabilityEntry`] holds.
pub struct WinProbabilityEntryView {
    pub at_bat_index: Option<u64>,
    pub cap_index: Option<u64>,
    pub home_delta: Option<Seq<char>>,
}

impl View for WinProbabilityEntry {
    type V = WinProbabilityEntryView;

    open spec fn view(&self) -> WinProbabilityEntryView {
        WinProbabilityEntryView {
            at_bat_index: self.at_bat_index,
            cap_index: self.cap_index,
            home_delta: opt_text(self.home_delta),
        }
    }
}

/// What the library reads of a live snapshot.
#[derive(Clone, Debug, PartialEq, Eq)]
pub struct LiveGame {
    pub home_name: Option<String>,
    pub away_name: Option<String>,
    pub home_id: Option<i64>,
    /// The last batted ball, where there has been one.
    pub last_event: Option<BattedBallEvent>,
    /// The table of win probability added, in the order of the feed.
    pub win_probability: Option<Vec<WinProbabilityEntry>>,
}

/// What a [`LiveGame`] holds.
pub struct LiveGameView {
    pub home_name: Option<Seq<char>>,
    pub away_name: Option<Seq<char>>,
    pub home_id: Option<i64>,
    pub last_event: Option<BattedBallEventView>,
    pub win_probability: Option<Seq<WinProbabilityEntryView>>,
}

impl View for LiveGame {
    type V = LiveGameView;

    open spec fn view(&self) -> LiveGameView {
        LiveGameView {
            home_name: opt_text(self.home_name),
            away_name: opt_text(self.away_name),
            home_id: self.home_id,
            last_event: match self.last_event {
                Some(e) => Some(e@),
                None => None,
            },
            win_probability: match self.win_probability {
                Some(t) => Some(t@.map_values(|e: WinProbabilityEntry| e@)),
                None => None,
            },
        }
    }
}

/// The batted ball that an element of the feed's event list holds.
pub open spec fn event_of(hit: Json) -> BattedBallEventView {
    BattedBallEventView {
        description: hit.at("des"@).as_str(),
        at_bat_number: hit.at("ab_number"@).as_u64(),
        cap_index: hit.at("cap_index"@).as_u64(),
        exit_velocity: hit.at("hit_speed"@).as_str(),
        launch_angle: hit.at("hit_angle"@).as_str(),
        distance: hit.at("hit_distance"@).as_str(),
        expected_average: hit.at("xba"@).as_str(),
        home_run_parks: hit.at("contextMetrics"@).at("homeRunBallparks"@).as_u64(),
    }
}

/// The row that an element of the feed's win probability table holds.
pub open spec fn entry_of(row: Json) -> WinProbabilityEntryView {
    WinProbabilityEntryView {
        at_bat_index: row.at("atBatIndex"@).as_u64(),
        cap_index: row.at("capIndex"@).as_u64(),
        home_delta: row.at("homeTeamWinProbabilityAdded"@).as_signed(),
    }
}

/// The last batted ball of a snapshot: the last element of its event list.
/// A snapshot without such a list, or with an empty one, has none.
pub open spec fn last_event_of(doc: Json) -> Option<BattedBallEventView> {
    match doc.at("exit_velocity"@).as_array() {
        Some(events) => if events.len() > 0 {
            Some(event_of(events.last()))
        } else {
            None
        },
        None => None,
    }
}

/// What the library reads of the snapshot `doc`.
pub open spec fn live_game_of(doc: Json) -> LiveGameView {
    let board = doc.at("scoreboard"@);
    LiveGameView {
        home_name: board.at("teams"@).at("home"@).at("name"@).as_str(),
        away_name: board.at("teams"@).at("away"@).at("name"@).as_str(),
        home_id: board.at("teams"@).at("home"@).at("id"@).as_i64(),
        last_event: last_event_of(doc),
        win_probability: match board.at("stats"@).at("wpa"@).at("gameWpa"@).as_array() {
            Some(rows) => Some(rows.map_values(|r: Json| entry_of(r))),
            None => None,
        },
    }
}

fn read_event(hit: &Value) -> (r: BattedBallEvent)
    ensures
        r@ == event_of(json_of(*hit)),
{
    let h = Some(hit);
    BattedBallEvent {
        description: text_of(member(h, "des")),
        at_bat_number: uint_of(member(h, "ab_number")),
        cap_index: uint_of(member(h, "cap_index")),
        exit_velocity: text_of(member(h, "hit_speed")),
        launch_angle: text_of(member(h, "hit_angle")),
        distance: text_of(member(h, "hit_distance")),
        expected_average: text_of(member(h, "xba")),
        home_run_parks: uint_of(member(member(h, "contextMetrics"), "homeRunBallparks")),
    }
}

fn read_entry(row: &Value) -> (r: WinProbabilityEntry)
    ensures
        r@ == entry_of(json_of(*row)),
{
    let w = Some(row);
    WinProbabilityEntry {
        at_bat_index: uint_of(member(w, "atBatIndex")),
        cap_index: uint_of(member(w, "capIndex")),
        home_delta: signed_of(member(w, "homeTeamWinProbabilityAdded")),
    }
}

/// Reads a live snapshot.
pub fn read_live_game(doc: &Document) -> (r: LiveGame)
    ensures
        r@ == live_game_of(doc@),
{
    let board = member(doc.root(), "scoreboard");
    let teams = member(board, "teams");
    let home = member(teams, "home");
    let last_event = match items_of(member(doc.root(), "exit_velocity")) {
        Some(events) => if events.len() > 0 {
            Some(read_event(&events[events.len() - 1]))
        } else {
            None
        },
        None => None,
    };
    let win_probability = match items_of(member(member(member(board, "stats"), "wpa"), "gameWpa")) {
        Some(rows) => {
            let ghost models = doc@.at("scoreboard"@).at("stats"@).at("wpa"@).at(
                "gameWpa"@,
            ).as_array()->Some_0;
            let mut table: Vec<WinProbabilityEntry> = Vec::new();
            let mut i: usize = 0;
            while i < rows.len()
                invariant
                    i <= rows.len(),
                    rows@.len() == models.len(),
                    forall|k: int|
                        0 <= k < rows@.len() ==> json_of(#[trigger] rows@[k]) == models[k],
                    table@.len() == i,
                    forall|k: int| 0 <= k < i ==> (#[trigger] table@[k])@ == entry_of(models[k]),
                decreases rows.len() - i,
            {
                table.push(read_entry(&rows[i]));
                i += 1;
            }
            assert(table@.map_values(|e: WinProbabilityEntry| e@) =~= models.map_values(
                |r: Json| entry_of(r),
            ));
            Some(table)
        },
        None => None,
    };
    LiveGame {
        home_name: text_of(member(home, "name")),
        away_name: text_of(member(member(teams, "away"), "name")),
        home_id: int_of(member(home, "id")),
        last_event,
        win_probability,
    }
}

/// Why the last batted ball could not be reported: the first thing that was
/// looked for and not found.
#[derive(Clone, Copy, PartialEq, Eq, Structural, Debug)]
pub enum EventError {
    HomeName,
    AwayName,
    HomeId,
    Description,
    /// The number of the at-bat is missing, or it is 0.
    AtBatNumber,
    CapIndex,
    WinProbabilityTable,
    /// No row of the table belongs to the event.
    WinProbabilityRow,
    ExitVelocity,
    LaunchAngle,
    Distance,
    /// The distance is no whole number.
    DistanceNumber,
    ExpectedAverage,
    /// The row of the event holds no number.
    WinProbability,
    HomeRunParks,
}

impl EventError {
    /// The error in words.
    pub open spec fn text(self) -> Seq<char> {
        match self {
            EventError::HomeName => "Could not get home team name"@,
            EventError::AwayName => "Could not get away team name"@,
            EventError::HomeId => "Could not get home team id"@,
            EventError::Description => "Could not get description"@,
            EventError::AtBatNumber => "Could not get at bat number"@,
            EventError::CapIndex => "Could not get cap index"@,
            EventError::WinProbabilityTable => "Could not get WPA table"@,
            EventError::WinProbabilityRow => "WPA must exist"@,
            EventError::ExitVelocity => "Could not get hit speed"@,
            EventError::LaunchAngle => "Could not get hit angle"@,
            EventError::Distance => "Could not get hit distance"@,
            EventError::DistanceNumber => "Could not parse hit distance"@,
            EventError::ExpectedAverage => "Could not get xBA"@,
            EventError::WinProbability => "Could not get WPA"@,
            EventError::HomeRunParks => "Could not get home run ballpark quantity"@,
        }
    }

    /// The error in words, for a log.
    pub fn message(&self) -> (r: &'static str)
        ensures
            r@ == self.text(),
    {
        match self {
            EventError::HomeName => "Could not get home team name",
            EventError::AwayName => "Could not get away team name",
            EventError::HomeId => "Could not get home team id",
            EventError::Description => "Could not get description",
            EventError::AtBatNumber => "Could not get at bat number",
            EventError::CapIndex => "Could not get cap index",
            EventError::WinProbabilityTable => "Could not get WPA table",
            EventError::WinProbabilityRow => "WPA must exist",
            EventError::ExitVelocity => "Could not get hit speed",
            EventError::LaunchAngle => "Could not get hit angle",
            EventError::Distance => "Could not get hit distance",
            EventError::DistanceNumber => "Could not parse hit distance",
            EventError::ExpectedAverage => "Could not get xBA",
            EventError::WinProbability => "Could not get WPA",
            EventError::HomeRunParks => "Could not get home run ballpark quantity",
        }
    }
}

/// Where the row of an event stands in the table: the at-bat's number less
/// one, and the cap index. An event without a cap index, or without an
/// at-bat number of at least 1, has no such place.
pub open spec fn win_probability_key(hit: BattedBallEventView) -> Option<(u64, u64)> {
    match (hit.at_bat_number, hit.cap_index) {
        (Some(number), Some(cap)) => if number >= 1 {
            Some(((number - 1) as u64, cap))
        } else {
            None
        },
        _ => None,
    }
}

/// The index used to look an event up is its at-bat number less one, exactly.
pub proof fn lemma_key_is_number_less_one(hit: BattedBallEventView)
    ensures
        match win_probability_key(hit) {
            Some(key) => hit.at_bat_number is Some && key.0 == hit.at_bat_number->Some_0 - 1
                && hit.cap_index == Some(key.1),
            None => hit.at_bat_number is None || hit.at_bat_number == Some(0u64)
                || hit.cap_index is None,
        },
{
}

/// Whether a row belongs to the event at `key`.
pub open spec fn belongs_to(row: WinProbabilityEntryView, key: (u64, u64)) -> bool {
    row.at_bat_index == Some(key.0) && row.cap_index == Some(key.1)
}

/// The position of the last row among the first `n` that belongs to the
/// event at `key`.
pub open spec fn last_row(rows: Seq<WinProbabilityEntryView>, key: (u64, u64), n: int) -> Option<
    int,
>
    decreases n,
{
    if n <= 0 {
        None
    } else if belongs_to(rows[n - 1], key) {
        Some(n - 1)
    } else {
        last_row(rows, key, n - 1)
    }
}

/// What [`last_row`] finds belongs to the event, and no later row does; it
/// finds nothing only where no row belongs to it.
pub proof fn lemma_last_row(rows: Seq<WinProbabilityEntryView>, key: (u64, u64), n: int)
    requires
        0 <= n <= rows.len(),
    ensures
        match last_row(rows, key, n) {
            Some(k) => 0 <= k < n && belongs_to(rows[k], key) && forall|j: int|
                k < j < n ==> !belongs_to(#[trigger] rows[j], key),
            None => forall|j: int| 0 <= j < n ==> !belongs_to(#[trigger] rows[j], key),
        },
    decreases n,
{
    if n > 0 && !belongs_to(rows[n - 1], key) {
        lemma_last_row(rows, key, n - 1);
    }
}

/// Finds the last row of `rows` that belongs to the event at `key`.
pub fn find_row(rows: &Vec<WinProbabilityEntry>, key: (u64, u64)) -> (r: Option<usize>)
    ensures
        match r {
            Some(k) => Some(k as int),
            None => None,
        } == last_row(rows@.map_values(|e: WinProbabilityEntry| e@), key, rows@.len() as int),
{
    let ghost views = rows@.map_values(|e: WinProbabilityEntry| e@);
    let mut n: usize = rows.len();
    while n > 0
        invariant
            n <= rows.len(),
            views == rows@.map_values(|e: WinProbabilityEntry| e@),
            last_row(views, key, rows@.len() as int) == last_row(views, key, n as int),
        decreases n,
    {
        let row = &rows[n - 1];
        let at_bat = match row.at_bat_index {
            Some(a) => a == key.0,
            None => false,
        };
        let cap = match row.cap_index {
            Some(c) => c == key.1,
            None => false,
        };
        assert(views[n - 1] == row@);
        if at_bat && cap {
            return Some(n - 1);
        }
        n -= 1;
    }
    None
}

/// A signed text with its sign turned: a leading `-` becomes `+`, a leading
/// `+` becomes `-`, and a text without a sign gets a `-`.
pub open spec fn flipped(delta: Seq<char>) -> Seq<char> {
    if delta.len() > 0 && delta[0] == '-' {
        seq!['+'] + delta.drop_first()
    } else if delta.len() > 0 && delta[0] == '+' {
        seq!['-'] + delta.drop_first()
    } else {
        seq!['-'] + delta
    }
}

/// The win probability added as the club sees it: the home team's delta as it
/// stands where the club is at home, with its sign turned where it is away.
pub open spec fn club_delta(is_home: bool, home_delta: Seq<char>) -> Seq<char> {
    if is_home {
        home_delta
    } else {
        flipped(home_delta)
    }
}

/// For one stored delta, the club at home and the club away read the same
/// magnitude with opposite signs.
pub proof fn lemma_sign_flips_when_away(negative: bool, magnitude: Seq<char>)
    ensures
        club_delta(true, seq![if negative { '-' } else { '+' }] + magnitude) == seq![
            if negative { '-' } else { '+' },
        ] + magnitude,
        club_delta(false, seq![if negative { '-' } else { '+' }] + magnitude) == seq![
            if negative { '+' } else { '-' },
        ] + magnitude,
{
    let stored = seq![if negative { '-' } else { '+' }] + magnitude;
    assert(stored.drop_first() =~= magnitude);
}

/// Computes [`club_delta`].
pub fn sign_for_club(is_home: bool, home_delta: &str) -> (r: String)
    ensures
        r@ == club_delta(is_home, home_delta@),
{
    if is_home {
        return home_delta.to_owned();
    }
    let x = chars_of(home_delta);
    let mut out = String::new();
    if x.len() > 0 && (x[0] == '-' || x[0] == '+') {
        out.push(if x[0] == '-' { '+' } else { '-' });
        let rest = slice_of(&x, 1, x.len());
        push_chars(&mut out, &rest);
        assert(out@ =~= flipped(home_delta@));
    } else {
        out.push('-');
        push_chars(&mut out, &x);
        assert(out@ =~= flipped(home_delta@));
    }
    out
}

/// The title of the report: home team, then away team, joined by `vs.` where
/// the club is at home and by `@` where it is away.
pub open spec fn matchup(home: Seq<char>, away: Seq<char>, is_home: bool) -> Seq<char> {
    if is_home {
        home + " vs. "@ + away
    } else {
        home + " @ "@ + away
    }
}

/// A field that is shown in line.
pub open spec fn inline_field(name: Seq<char>, value: Seq<char>) -> FieldView {
    FieldView { name, value, inline: true }
}

/// The fields of the report, in their fixed order. The last one is there
/// only for a ball that flew 300 feet or more.
pub open spec fn report_fields(
    hit: BattedBallEventView,
    distance: nat,
    delta: Seq<char>,
) -> Seq<FieldView> {
    let always = seq![
        inline_field("Exit Velocity"@, hit.exit_velocity->Some_0 + "mph"@),
        inline_field("Launch Angle"@, hit.launch_angle->Some_0 + "\u{c2}\u{b0}"@),
        inline_field("Distance"@, decimal(distance) + " ft"@),
        inline_field("xBA"@, hit.expected_average->Some_0),
        inline_field("WPA"@, delta),
    ];
    if distance >= 300 {
        always.push(
            inline_field("Home Run"@, decimal(hit.home_run_parks->Some_0 as nat) + "/30"@),
        )
    } else {
        always
    }
}

/// The report of the last batted ball of `game`, for the club `team`:
/// nothing where no ball has been batted, the first thing found missing
/// where something is, and else the message.
pub open spec fn report(game: LiveGameView, team: i64) -> Result<Option<EmbedView>, EventError> {
    match game.last_event {
        None => Ok(None),
        Some(hit) => {
            if game.home_name is None {
                Err(EventError::HomeName)
            } else if game.away_name is None {
                Err(EventError::AwayName)
            } else if game.home_id is None {
                Err(EventError::HomeId)
            } else if hit.description is None {
                Err(EventError::Description)
            } else if hit.at_bat_number is None || hit.at_bat_number == Some(0u64) {
                Err(EventError::AtBatNumber)
            } else if hit.cap_index is None {
                Err(EventError::CapIndex)
            } else if game.win_probability is None {
                Err(EventError::WinProbabilityTable)
            } else {
                let rows = game.win_probability->Some_0;
                let row = last_row(rows, win_probability_key(hit)->Some_0, rows.len() as int);
                if row is None {
                    Err(EventError::WinProbabilityRow)
                } else if hit.exit_velocity is None {
                    Err(EventError::ExitVelocity)
                } else if hit.launch_angle is None {
                    Err(EventError::LaunchAngle)
                } else if hit.distance is None {
                    Err(EventError::Distance)
                } else if unsigned_value(hit.distance->Some_0, usize::MAX as nat) is None {
                    Err(EventError::DistanceNumber)
                } else if hit.expected_average is None {
                    Err(EventError::ExpectedAverage)
                } else if rows[row->Some_0].home_delta is None {
                    Err(EventError::WinProbability)
                } else {
                    let distance = unsigned_value(hit.distance->Some_0, usize::MAX as nat)->Some_0;
                    let is_home = game.home_id->Some_0 == team;
                    if distance >= 300 && hit.home_run_parks is None {
                        Err(EventError::HomeRunParks)
                    } else {
                        Ok(
                            Some(
                                EmbedView {
                                    title: matchup(
                                        game.home_name->Some_0,
                                        game.away_name->Some_0,
                                        is_home,
                                    ),
                                    description: Some(first_sentence(hit.description->Some_0)),
                                    thumbnail: None,
                                    fields: report_fields(
                                        hit,
                                        distance,
                                        club_delta(is_home, rows[row->Some_0].home_delta->Some_0),
                                    ),
                                },
                            ),
                        )
                    }
                }
            }
        },
    }
}

fn text_with(value: &str, unit: &str) -> (r: String)
    ensures
        r@ == value@ + unit@,
{
    let mut out = String::new();
    out.append(value);
    out.append(unit);
    assert(out@ =~= value@ + unit@);
    out
}

fn number_with(value: u64, unit: &str) -> (r: String)
    ensures
        r@ == decimal(value as nat) + unit@,
{
    let mut out = String::new();
    push_decimal(&mut out, value);
    out.append(unit);
    assert(out@ =~= decimal(value as nat) + unit@);
    out
}

/// Reports the last batted ball of `game` for the club `team`.
pub fn describe(game: &LiveGame, team: i64) -> (r: Result<Option<Embed>, EventError>)
    ensures
        match r {
            Ok(Some(e)) => Ok(Some(e@)),
            Ok(None) => Ok(None),
            Err(e) => Err(e),
        } == report(game@, team),
{
    let hit = match &game.last_event {
        None => {
            return Ok(None);
        },
        Some(h) => h,
    };
    let home_name = match &game.home_name {
        None => {
            return Err(EventError::HomeName);
        },
        Some(n) => n,
    };
    let away_name = match &game.away_name {
        None => {
            return Err(EventError::AwayName);
        },
        Some(n) => n,
    };
    let is_home = match game.home_id {
        None => {
            return Err(EventError::HomeId);
        },
        Some(id) => id == team,
    };
    let description = match &hit.description {
        None => {
            return Err(EventError::Description);
        },
        Some(d) => d,
    };
    let at_bat_index: u64 = match hit.at_bat_number {
        None => {
            return Err(EventError::AtBatNumber);
        },
        Some(n) => {
            if n == 0 {
                return Err(EventError::AtBatNumber);
            }
            n - 1
        },
    };
    let cap_index = match hit.cap_index {
        None => {
            return Err(EventError::CapIndex);
        },
        Some(c) => c,
    };
    let rows = match &game.win_probability {
        None => {
            return Err(EventError::WinProbabilityTable);
        },
        Some(t) => t,
    };
    let row = match find_row(rows, (at_bat_index, cap_index)) {
        None => {
            return Err(EventError::WinProbabilityRow);
        },
        Some(k) => k,
    };
    proof {
        lemma_last_row(
            rows@.map_values(|e: WinProbabilityEntry| e@),
            (at_bat_index, cap_index),
            rows@.len() as int,
        );
    }
    let exit_velocity = match &hit.exit_velocity {
        None => {
            return Err(EventError::ExitVelocity);
        },
        Some(v) => v,
    };
    let launch_angle = match &hit.launch_angle {
        None => {
            return Err(EventError::LaunchAngle);
        },
        Some(v) => v,
    };
    let distance_text = match &hit.distance {
        None => {
            return Err(EventError::Distance);
        },
        Some(v) => v,
    };
    let distance = match parse_unsigned(distance_text.as_str(), usize::MAX as u64) {
        None => {
            return Err(EventError::DistanceNumber);
        },
        Some(v) => v,
    };
    let expected_average = match &hit.expected_average {
        None => {
            return Err(EventError::ExpectedAverage);
        },
        Some(v) => v,
    };
    assert(rows@.map_values(|e: WinProbabilityEntry| e@)[row as int] == rows@[row as int]@);
    let home_delta = match &rows[row].home_delta {
        None => {
            return Err(EventError::WinProbability);
        },
        Some(v) => v,
    };
    let mut title = String::new();
    title.append(home_name.as_str());
    title.append(if is_home { " vs. " } else { " @ " });
    title.append(away_name.as_str());
    assert(title@ =~= matchup(home_name@, away_name@, is_home));
    let mut fields: Vec<Field> = Vec::new();
    fields.push(field("Exit Velocity", text_with(exit_velocity.as_str(), "mph"), true));
    fields.push(field("Launch Angle", text_with(launch_angle.as_str(), "\u{c2}\u{b0}"), true));
    fields.push(field("Distance", number_with(distance, " ft"), true));
    fields.push(field("xBA", expected_average.clone(), true));
    fields.push(field("WPA", sign_for_club(is_home, home_delta.as_str()), true));
    if distance >= 300 {
        match hit.home_run_parks {
            None => {
                return Err(EventError::HomeRunParks);
            },
            Some(parks) => {
                fields.push(field("Home Run", number_with(parks, "/30"), true));
            },
        }
    }
    let e = Embed {
        title,
        description: Some(cut_sentence(description.as_str())),
        thumbnail: None,
        fields,
    };
    assert(e@.fields =~= report_fields(
        hit@,
        distance as nat,
        club_delta(is_home, home_delta@),
    ));
    Ok(Some(e))
}

impl Handler {
    /// Reports the last batted ball of the current game, whose live snapshot
    /// is `snapshot`, for the club: `Ok(None)` where no ball has been batted
    /// yet.
    pub fn exit_velocity(&self, snapshot: &Document) -> (r: Result<Option<Embed>, EventError>)
        ensures
            match r {
                Ok(Some(e)) => Ok(Some(e@)),
                Ok(None) => Ok(None),
                Err(e) => Err(e),
            } == report(live_game_of(snapshot@), ATLANTA_BRAVES_TEAM_ID),
    {
        let game = read_live_game(snapshot);
        describe(&game, ATLANTA_BRAVES_TEAM_ID)
    }
}

} // verus!
