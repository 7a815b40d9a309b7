//! League standings: which table a command asks for, what is read of the
//! standings feed, and the table that is shown.

use crate::clock::month_now;
use crate::clock::month_of_timestamp;
use crate::clock::timestamp_month;
use crate::json::bool_of;
use crate::json::int_of;
use crate::json::items_of;
use crate::json::json_of;
use crate::json::member;
use crate::json::text_of;
use crate::json::Document;
use crate::json::Json;
use crate::game::Handler;
use crate::game::NL_EAST_DIVISION_ID;
use crate::game::NL_LEAGUE_ID;
use crate::message::opt_text;
use crate::message::Embed;
use crate::message::EmbedView;
use crate::order::order_by_key;
use crate::order::lemma_stable_order;
use crate::order::positions;
use crate::order::stable_order;
use crate::text::byte_len;
use crate::text::decimal;
use crate::text::decimal_string;
use crate::text::eq_ignoring_case;
use crate::text::padded_right;
use crate::text::parse_unsigned;
use crate::text::push_padded_right;
use crate::text::push_repeated;
use crate::text::push_signed;
use crate::text::repeated;
use crate::text::same_ignoring_case;
use crate::text::signed_decimal;
use crate::text::split_words;
use crate::text::starts_with;
use crate::text::texts;
use crate::text::unsigned_value;
use crate::text::words;
use serde_json::Value;
use vstd::prelude::*;
use vstd::string::StringExecFns;

verus! {

/// The table that a command asks for.
#[derive(Clone, Copy, PartialEq, Eq, Structural, Debug)]
pub struct StandingsQuery {
    /// 103 for the American League, 104 for the National League.
    pub league_id: i64,
    /// The division: 200 to 202 in the American League, 203 to 205 in the
    /// National League, each time west, east, central.
    pub division_id: i64,
    /// Whether the wild-card ranking of the league is asked for, not a
    /// division.
    pub wild_card: bool,
}

/// Whether one of `ws` is `keyword`, capitals read as lower case.
pub open spec fn mentions(ws: Seq<Seq<char>>, keyword: Seq<char>) -> bool {
    exists|i: int| 0 <= i < ws.len() && same_ignoring_case(#[trigger] ws[i], keyword)
}

/// Whether a command names the American League.
pub open spec fn names_american_league(ws: Seq<Seq<char>>) -> bool {
    mentions(ws, "al"@) || mentions(ws, "a"@) || mentions(ws, "american"@)
}

/// The place of the division that a command names within its league: 0 for
/// west, 2 for central, 1 for east, which is also what no name gives. West
/// goes before central where both are named.
pub open spec fn division_offset(ws: Seq<Seq<char>>) -> int {
    if mentions(ws, "west"@) || mentions(ws, "w"@) {
        0
    } else if mentions(ws, "central"@) || mentions(ws, "c"@) {
        2
    } else {
        1
    }
}

/// Whether a command asks for the wild-card ranking: one of its words is
/// `wc` or `wild card`, or it has a word at all and begins with `~wc` or
/// `~wildcard`.
pub open spec fn asks_wild_card(content: Seq<char>) -> bool {
    let ws = words(content);
    mentions(ws, "wc"@) || mentions(ws, "wild card"@) || (ws.len() > 0 && ("~wc"@.is_prefix_of(
        content,
    ) || "~wildcard"@.is_prefix_of(content)))
}

/// The table that the command `content` asks for.
pub open spec fn standings_query(content: Seq<char>) -> StandingsQuery {
    let ws = words(content);
    let american = names_american_league(ws);
    StandingsQuery {
        league_id: if american {
            103
        } else {
            104
        },
        division_id: (200 + division_offset(ws) + if american {
            0int
        } else {
            3int
        }) as i64,
        wild_card: asks_wild_card(content),
    }
}

/// A command that names neither the American League nor a division asks
/// for the club's own league and division.
pub proof fn lemma_plain_command_asks_for_the_club(content: Seq<char>)
    requires
        !names_american_league(words(content)),
        division_offset(words(content)) == 1,
    ensures
        standings_query(content).league_id == NL_LEAGUE_ID,
        standings_query(content).division_id == NL_EAST_DIVISION_ID,
{
}

fn has_word(ws: &Vec<Vec<char>>, keyword: &str) -> (r: bool)
    ensures
        r == mentions(texts(ws@), keyword@),
{
    let mut i: usize = 0;
    while i < ws.len()
        invariant
            i <= ws.len(),
            forall|k: int| 0 <= k < i ==> !same_ignoring_case(#[trigger] texts(ws@)[k], keyword@),
        decreases ws.len() - i,
    {
        if eq_ignoring_case(&ws[i], keyword) {
            assert(same_ignoring_case(texts(ws@)[i as int], keyword@));
            return true;
        }
        i += 1;
    }
    false
}

/// Reads which table the command `content` asks for.
pub fn parse_query(content: &str) -> (r: StandingsQuery)
    ensures
        r == standings_query(content@),
{
    let ws = split_words(content);
    let american = has_word(&ws, "al") || has_word(&ws, "a") || has_word(&ws, "american");
    let offset: i64 = if has_word(&ws, "west") || has_word(&ws, "w") {
        0
    } else if has_word(&ws, "central") || has_word(&ws, "c") {
        2
    } else {
        1
    };
    let wild_card = has_word(&ws, "wc") || has_word(&ws, "wild card") || (ws.len() > 0 && (
    starts_with(content, "~wc") || starts_with(content, "~wildcard")));
    StandingsQuery {
        league_id: if american {
            103
        } else {
            104
        },
        division_id: 200 + offset + if american {
            0
        } else {
            3
        },
        wild_card,
    }
}

/// The address of the standings of league `league_id`.
pub open spec fn standings_address(league_id: int) -> Seq<char> {
    "https://statsapi.mlb.com/api/v1/standings?leagueId="@ + signed_decimal(league_id)
        + "&hydrate=team,division"@
}

/// The address of the standings of league `league_id`.
pub fn standings_url(league_id: i64) -> (r: String)
    ensures
        r@ == standings_address(league_id as int),
{
    let mut out = String::new();
    out.append("https://statsapi.mlb.com/api/v1/standings?leagueId=");
    push_signed(&mut out, league_id);
    out.append("&hydrate=team,division");
    assert(out@ =~= standings_address(league_id as int));
    out
}

/// One team of the standings feed. A member that is missing or of another
/// type is `None`.
#[derive(Clone, Debug, PartialEq, Eq)]
pub struct TeamRecord {
    pub division_leader: bool,
    pub wild_card_rank: Option<String>,
    pub club_name: Option<String>,
    pub winning_percentage: Option<String>,
    pub games_back: Option<String>,
    pub wild_card_games_back: Option<String>,
    pub streak: Option<String>,
    pub magic_number: Option<String>,
    pub elimination_number: Option<String>,
}

/// What a [`TeamRecord`] holds.
pub struct TeamRecordView {
    pub division_leader: bool,
    pub wild_card_rank: Option<Seq<char>>,
    pub club_name: Option<Seq<char>>,
    pub winning_percentage: Option<Seq<char>>,
    pub games_back: Option<Seq<char>>,
    pub wild_card_games_back: Option<Seq<char>>,
    pub streak: Option<Seq<char>>,
    pub magic_number: Option<Seq<char>>,
    pub elimination_number: Option<Seq<char>>,
}

impl View for TeamRecord {
    type V = TeamRecordView;

    open spec fn view(&self) -> TeamRecordView {
        TeamRecordView {
            division_leader: self.division_leader,
            wild_card_rank: opt_text(self.wild_card_rank),
            club_name: opt_text(self.club_name),
            winning_percentage: opt_text(self.winning_percentage),
            games_back: opt_text(self.games_back),
            wild_card_games_back: opt_text(self.wild_card_games_back),
            streak: opt_text(self.streak),
            magic_number: opt_text(self.magic_number),
            elimination_number: opt_text(self.elimination_number),
        }
    }
}

/// What each team of `v` holds.
pub open spec fn team_views(v: Seq<TeamRecord>) -> Seq<TeamRecordView> {
    v.map_values(|t: TeamRecord| t@)
}

/// One division of the standings feed.
#[derive(Clone, Debug, PartialEq, Eq)]
pub struct DivisionRecord {
    pub id: Option<i64>,
    pub short_name: Option<String>,
    /// The month in which the division's standings were last updated.
    pub updated_month: Option<u32>,
    pub teams: Option<Vec<TeamRecord>>,
}

/// What a [`DivisionRecord`] holds.
pub struct DivisionRecordView {
    pub id: Option<i64>,
    pub short_name: Option<Seq<char>>,
    pub updated_month: Option<u32>,
    pub teams: Option<Seq<TeamRecordView>>,
}

impl View for DivisionRecord {
    type V = DivisionRecordView;

    open spec fn view(&self) -> DivisionRecordView {
        DivisionRecordView {
            id: self.id,
            short_name: opt_text(self.short_name),
            updated_month: self.updated_month,
            teams: match self.teams {
                Some(t) => Some(team_views(t@)),
                None => None,
            },
        }
    }
}

/// What each division of `v` holds.
pub open spec fn division_views(v: Seq<DivisionRecord>) -> Seq<DivisionRecordView> {
    v.map_values(|d: DivisionRecord| d@)
}

/// The team that an element of a division's team list holds.
pub open spec fn team_of(team: Json) -> TeamRecordView {
    TeamRecordView {
        division_leader: team.at("divisionLeader"@).as_bool() == Some(true),
        wild_card_rank: team.at("wildCardRank"@).as_str(),
        club_name: team.at("team"@).at("clubName"@).as_str(),
        winning_percentage: team.at("winningPercentage"@).as_str(),
        games_back: team.at("gamesBack"@).as_str(),
        wild_card_games_back: team.at("wildCardGamesBack"@).as_str(),
        streak: team.at("streak"@).at("streakCode"@).as_str(),
        magic_number: team.at("magicNumber"@).as_str(),
        elimination_number: team.at("eliminationNumber"@).as_str(),
    }
}

/// The division that an element of the feed's record list holds.
pub open spec fn division_of(division: Json) -> DivisionRecordView {
    DivisionRecordView {
        id: division.at("division"@).at("id"@).as_i64(),
        short_name: division.at("division"@).at("nameShort"@).as_str(),
        updated_month: match division.at("lastUpdated"@).as_str() {
            Some(t) => timestamp_month(t),
            None => None,
        },
        teams: match division.at("teamRecords"@).as_array() {
            Some(teams) => Some(teams.map_values(|t: Json| team_of(t))),
            None => None,
        },
    }
}

/// The divisions of a standings document; `None` where it has no record
/// list.
pub open spec fn records_of(doc: Json) -> Option<Seq<DivisionRecordView>> {
    match doc.at("records"@).as_array() {
        Some(records) => Some(records.map_values(|d: Json| division_of(d))),
        None => None,
    }
}

fn read_team(team: &Value) -> (r: TeamRecord)
    ensures
        r@ == team_of(json_of(*team)),
{
    let t = Some(team);
    let leader = match bool_of(member(t, "divisionLeader")) {
        Some(b) => b,
        None => false,
    };
    TeamRecord {
        division_leader: leader,
        wild_card_rank: text_of(member(t, "wildCardRank")),
        club_name: text_of(member(member(t, "team"), "clubName")),
        winning_percentage: text_of(member(t, "winningPercentage")),
        games_back: text_of(member(t, "gamesBack")),
        wild_card_games_back: text_of(member(t, "wildCardGamesBack")),
        streak: text_of(member(member(t, "streak"), "streakCode")),
        magic_number: text_of(member(t, "magicNumber")),
        elimination_number: text_of(member(t, "eliminationNumber")),
    }
}

fn read_division(division: &Value) -> (r: DivisionRecord)
    ensures
        r@ == division_of(json_of(*division)),
{
    let d = Some(division);
    let updated_month = match text_of(member(d, "lastUpdated")) {
        Some(t) => month_of_timestamp(t.as_str()),
        None => None,
    };
    let teams = match items_of(member(d, "teamRecords")) {
        Some(items) => {
            let ghost models = json_of(*division).at("teamRecords"@).as_array()->Some_0;
            let mut out: Vec<TeamRecord> = Vec::new();
            let mut i: usize = 0;
            while i < items.len()
                invariant
                    i <= items.len(),
                    items@.len() == models.len(),
                    forall|k: int|
                        0 <= k < items@.len() ==> json_of(#[trigger] items@[k]) == models[k],
                    out@.len() == i,
                    forall|k: int| 0 <= k < i ==> (#[trigger] out@[k])@ == team_of(models[k]),
                decreases items.len() - i,
            {
                out.push(read_team(&items[i]));
                i += 1;
            }
            assert(team_views(out@) =~= models.map_values(|t: Json| team_of(t)));
            Some(out)
        },
        None => None,
    };
    DivisionRecord {
        id: int_of(member(member(d, "division"), "id")),
        short_name: text_of(member(member(d, "division"), "nameShort")),
        updated_month,
        teams,
    }
}

/// Reads the divisions of a standings document.
pub fn read_records(doc: &Document) -> (r: Option<Vec<DivisionRecord>>)
    ensures
        match r {
            Some(v) => Some(division_views(v@)),
            None => None,
        } == records_of(doc@),
{
    match items_of(member(doc.root(), "records")) {
        Some(items) => {
            let ghost models = doc@.at("records"@).as_array()->Some_0;
            let mut out: Vec<DivisionRecord> = Vec::new();
            let mut i: usize = 0;
            while i < items.len()
                invariant
                    i <= items.len(),
                    items@.len() == models.len(),
                    forall|k: int|
                        0 <= k < items@.len() ==> json_of(#[trigger] items@[k]) == models[k],
                    out@.len() == i,
                    forall|k: int| 0 <= k < i ==> (#[trigger] out@[k])@ == division_of(models[k]),
                decreases items.len() - i,
            {
                out.push(read_division(&items[i]));
                i += 1;
            }
            assert(division_views(out@) =~= models.map_values(|d: Json| division_of(d)));
            Some(out)
        },
        None => None,
    }
}

/// Why the standings could not be shown: the first thing that was looked
/// for and not found.
#[derive(Clone, Copy, PartialEq, Eq, Structural, Debug)]
pub enum StandingsError {
    /// The document has no record list.
    Records,
    /// No division of the list has the identifier asked for.
    Division,
    DivisionName,
    /// A division has no team list.
    Teams,
    /// The division has no timestamp of its last update that can be read.
    Timestamp,
    /// The wild-card rank of a team is no whole number.
    WildCardRank,
    ClubName,
    WinningPercentage,
    MagicNumber,
    GamesBack,
    EliminationNumber,
    Streak,
}

impl StandingsError {
    /// The error in words.
    pub open spec fn text(self) -> Seq<char> {
        match self {
            StandingsError::Records => "Could not get standings"@,
            StandingsError::Division => "Could not find division"@,
            StandingsError::DivisionName => "Could not get division name"@,
            StandingsError::Teams => "Could not get divisions teams"@,
            StandingsError::Timestamp => "Could not get last updated timestamp"@,
            StandingsError::WildCardRank => "Could not parse wild card rank"@,
            StandingsError::ClubName => "Could not get club name"@,
            StandingsError::WinningPercentage => "Could not get team's WPCT"@,
            StandingsError::MagicNumber => "Could not get magic number"@,
            StandingsError::GamesBack => "Could not get games back"@,
            StandingsError::EliminationNumber => "Could not get elimination number"@,
            StandingsError::Streak => "Could not get streak"@,
        }
    }

    /// The error in words, for a log.
    pub fn message(&self) -> (r: &'static str)
        ensures
            r@ == self.text(),
    {
        match self {
            StandingsError::Records => "Could not get standings",
            StandingsError::Division => "Could not find division",
            StandingsError::DivisionName => "Could not get division name",
            StandingsError::Teams => "Could not get divisions teams",
            StandingsError::Timestamp => "Could not get last updated timestamp",
            StandingsError::WildCardRank => "Could not parse wild card rank",
            StandingsError::ClubName => "Could not get club name",
            StandingsError::WinningPercentage => "Could not get team's WPCT",
            StandingsError::MagicNumber => "Could not get magic number",
            StandingsError::GamesBack => "Could not get games back",
            StandingsError::EliminationNumber => "Could not get elimination number",
            StandingsError::Streak => "Could not get streak",
        }
    }
}

/// One line of the table.
#[derive(Clone, Debug, PartialEq, Eq)]
pub struct Row {
    /// `D` for the leader of a division, the wild-card rank for the first
    /// three of the ranking, a blank for every other team.
    pub marker: String,
    pub name: String,
    pub percentage: String,
    pub third: String,
    pub fourth: String,
}

/// What a [`Row`] holds.
pub struct RowView {
    pub marker: Seq<char>,
    pub name: Seq<char>,
    pub percentage: Seq<char>,
    pub third: Seq<char>,
    pub fourth: Seq<char>,
}

impl View for Row {
    type V = RowView;

    open spec fn view(&self) -> RowView {
        RowView {
            marker: self.marker@,
            name: self.name@,
            percentage: self.percentage@,
            third: self.third@,
            fourth: self.fourth@,
        }
    }
}

/// What each row of `v` holds.
pub open spec fn row_views(v: Seq<Row>) -> Seq<RowView> {
    v.map_values(|r: Row| r@)
}

/// The wild-card rank of a team as the feed writes it; `0` where it writes
/// none.
pub open spec fn rank_text(team: TeamRecordView) -> Seq<char> {
    match team.wild_card_rank {
        Some(t) => t,
        None => "0"@,
    }
}

/// The key by which the wild-card ranking is ordered: the wild-card rank
/// where it is a number of at most 255, and 0 where it is not.
pub open spec fn sort_key(team: TeamRecordView) -> u8 {
    match unsigned_value(rank_text(team), 255) {
        Some(v) => v as u8,
        None => 0,
    }
}

/// The marker of a team with wild-card rank `rank`.
pub open spec fn marker_of(leader: bool, rank: nat) -> Seq<char> {
    if leader {
        "D"@
    } else if rank <= 3 {
        decimal(rank)
    } else {
        " "@
    }
}

/// The line of one team. From September on (`late`) the third and fourth
/// columns hold the magic number and the elimination number; before, games
/// back (those of the wild-card ranking where that is shown) and the streak.
pub open spec fn row_of(team: TeamRecordView, late: bool, wild_card: bool) -> Result<
    RowView,
    StandingsError,
> {
    let rank = unsigned_value(rank_text(team), usize::MAX as nat);
    let third = if late {
        team.magic_number
    } else if wild_card {
        team.wild_card_games_back
    } else {
        team.games_back
    };
    let fourth = if late {
        team.elimination_number
    } else {
        team.streak
    };
    if rank is None {
        Err(StandingsError::WildCardRank)
    } else if team.club_name is None {
        Err(StandingsError::ClubName)
    } else if team.winning_percentage is None {
        Err(StandingsError::WinningPercentage)
    } else if third is None {
        Err(
            if late {
                StandingsError::MagicNumber
            } else {
                StandingsError::GamesBack
            },
        )
    } else if fourth is None {
        Err(
            if late {
                StandingsError::EliminationNumber
            } else {
                StandingsError::Streak
            },
        )
    } else {
        Ok(
            RowView {
                marker: marker_of(team.division_leader, rank->Some_0),
                name: team.club_name->Some_0,
                percentage: team.winning_percentage->Some_0,
                third: third->Some_0,
                fourth: fourth->Some_0,
            },
        )
    }
}

/// The lines of the first `n` teams, or the error of the first team that has
/// one.
pub open spec fn rows_upto(teams: Seq<TeamRecordView>, n: int, late: bool, wild_card: bool)
    -> Result<Seq<RowView>, StandingsError>
    decreases n,
{
    if n <= 0 {
        Ok(Seq::empty())
    } else {
        match rows_upto(teams, n - 1, late, wild_card) {
            Err(e) => Err(e),
            Ok(before) => match row_of(teams[n - 1], late, wild_card) {
                Err(e) => Err(e),
                Ok(row) => Ok(before.push(row)),
            },
        }
    }
}

/// Once a team has an error, the lines have it, however many teams follow.
pub proof fn lemma_rows_stay_failed(
    teams: Seq<TeamRecordView>,
    n: int,
    m: int,
    late: bool,
    wild_card: bool,
)
    requires
        0 <= n <= m,
        rows_upto(teams, n, late, wild_card) is Err,
    ensures
        rows_upto(teams, m, late, wild_card) == rows_upto(teams, n, late, wild_card),
    decreases m - n,
{
    if n < m {
        lemma_rows_stay_failed(teams, n, m - 1, late, wild_card);
    }
}

/// The part of the season changes what the third and fourth columns hold,
/// and nothing else: the same teams stand in the same order, with the same
/// markers, names and winning percentages.
pub proof fn lemma_season_keeps_order(teams: Seq<TeamRecordView>, n: int, wild_card: bool)
    requires
        0 <= n <= teams.len(),
        rows_upto(teams, n, false, wild_card) is Ok,
        rows_upto(teams, n, true, wild_card) is Ok,
    ensures
        rows_upto(teams, n, false, wild_card)->Ok_0.len() == n,
        rows_upto(teams, n, true, wild_card)->Ok_0.len() == n,
        forall|i: int|
            0 <= i < n ==> {
                let early = #[trigger] rows_upto(teams, n, false, wild_card)->Ok_0[i];
                let late = rows_upto(teams, n, true, wild_card)->Ok_0[i];
                &&& early.name == teams[i].club_name->Some_0
                &&& late.name == early.name
                &&& late.marker == early.marker
                &&& late.percentage == early.percentage
            },
    decreases n,
{
    if n > 0 {
        lemma_season_keeps_order(teams, n - 1, wild_card);
    }
}

/// Builds the line of one team.
pub fn make_row(team: &TeamRecord, late: bool, wild_card: bool) -> (r: Result<Row, StandingsError>)
    ensures
        match r {
            Ok(row) => Ok(row@),
            Err(e) => Err(e),
        } == row_of(team@, late, wild_card),
{
    let rank = match &team.wild_card_rank {
        Some(t) => parse_unsigned(t.as_str(), usize::MAX as u64),
        None => parse_unsigned("0", usize::MAX as u64),
    };
    let rank = match rank {
        Some(v) => v,
        None => {
            return Err(StandingsError::WildCardRank);
        },
    };
    let name = match &team.club_name {
        Some(t) => t.clone(),
        None => {
            return Err(StandingsError::ClubName);
        },
    };
    let percentage = match &team.winning_percentage {
        Some(t) => t.clone(),
        None => {
            return Err(StandingsError::WinningPercentage);
        },
    };
    let third_source = if late {
        &team.magic_number
    } else if wild_card {
        &team.wild_card_games_back
    } else {
        &team.games_back
    };
    let third = match third_source {
        Some(t) => t.clone(),
        None => {
            return Err(
                if late {
                    StandingsError::MagicNumber
                } else {
                    StandingsError::GamesBack
                },
            );
        },
    };
    let fourth_source = if late {
        &team.elimination_number
    } else {
        &team.streak
    };
    let fourth = match fourth_source {
        Some(t) => t.clone(),
        None => {
            return Err(
                if late {
                    StandingsError::EliminationNumber
                } else {
                    StandingsError::Streak
                },
            );
        },
    };
    let marker = if team.division_leader {
        "D".to_owned()
    } else if rank <= 3 {
        decimal_string(rank)
    } else {
        " ".to_owned()
    };
    Ok(Row { marker, name, percentage, third, fourth })
}

/// What each team behind `v` holds.
pub open spec fn shown_views(v: Seq<&TeamRecord>) -> Seq<TeamRecordView> {
    v.map_values(|t: &TeamRecord| t@)
}

/// Builds the lines of `teams`, in order.
pub fn make_rows(teams: &Vec<&TeamRecord>, late: bool, wild_card: bool) -> (r: Result<
    Vec<Row>,
    StandingsError,
>)
    ensures
        match r {
            Ok(rows) => Ok(row_views(rows@)),
            Err(e) => Err(e),
        } == rows_upto(shown_views(teams@), teams@.len() as int, late, wild_card),
{
    let mut out: Vec<Row> = Vec::new();
    let mut i: usize = 0;
    assert(row_views(out@) =~= Seq::empty());
    while i < teams.len()
        invariant
            i <= teams.len(),
            rows_upto(shown_views(teams@), i as int, late, wild_card) == Ok::<
                Seq<RowView>,
                StandingsError,
            >(row_views(out@)),
        decreases teams.len() - i,
    {
        assert(shown_views(teams@)[i as int] == teams@[i as int]@);
        match make_row(teams[i], late, wild_card) {
            Ok(row) => {
                let ghost before = row_views(out@);
                out.push(row);
                assert(row_views(out@) =~= before.push(row@));
            },
            Err(e) => {
                proof {
                    assert(rows_upto(shown_views(teams@), i + 1, late, wild_card) == Err::<
                        Seq<RowView>,
                        StandingsError,
                    >(e));
                    lemma_rows_stay_failed(
                        shown_views(teams@),
                        i + 1,
                        teams@.len() as int,
                        late,
                        wild_card,
                    );
                }
                return Err(e);
            },
        }
        i += 1;
    }
    Ok(out)
}

/// The widths of the four columns, in bytes.
pub struct ColumnWidths {
    pub name: nat,
    pub percentage: nat,
    pub third: nat,
    pub fourth: nat,
}

/// The widths of the four columns, in bytes.
#[derive(Clone, Copy, Debug)]
pub struct Widths {
    pub name: usize,
    pub percentage: usize,
    pub third: usize,
    pub fourth: usize,
}

impl View for Widths {
    type V = ColumnWidths;

    open spec fn view(&self) -> ColumnWidths {
        ColumnWidths {
            name: self.name as nat,
            percentage: self.percentage as nat,
            third: self.third as nat,
            fourth: self.fourth as nat,
        }
    }
}

/// The larger of `least` and the number of bytes of the longest of the first
/// `n` of `cells`.
pub open spec fn widest(cells: Seq<Seq<char>>, n: int, least: nat) -> nat
    decreases n,
{
    if n <= 0 {
        least
    } else {
        let before = widest(cells, n - 1, least);
        if byte_len(cells[n - 1]) > before {
            byte_len(cells[n - 1])
        } else {
            before
        }
    }
}

/// A column is wide enough for its heading and for each of its cells.
pub proof fn lemma_widest(cells: Seq<Seq<char>>, n: int, least: nat, i: int)
    requires
        0 <= i < n <= cells.len(),
    ensures
        widest(cells, n, least) >= least,
        widest(cells, n, least) >= byte_len(cells[i]),
    decreases n,
{
    if n == 1 {
        assert(widest(cells, 0, least) == least);
    } else if i < n - 1 {
        lemma_widest(cells, n - 1, least, i);
    } else {
        lemma_widest(cells, n - 1, least, 0);
    }
}

/// The heading of the third column.
pub open spec fn third_heading(late: bool) -> Seq<char> {
    if late {
        "M#"@
    } else {
        "GB"@
    }
}

/// The heading of the fourth column.
pub open spec fn fourth_heading(late: bool) -> Seq<char> {
    if late {
        "E#"@
    } else {
        "Streak"@
    }
}

/// The widths of the columns of a table with the first `n` of `rows`: each
/// column is as wide as its heading and its longest cell need, counted in
/// bytes.
pub open spec fn widths_of(rows: Seq<RowView>, n: int, late: bool) -> ColumnWidths {
    ColumnWidths {
        name: widest(rows.map_values(|r: RowView| r.name), n, byte_len("Team"@)),
        percentage: widest(rows.map_values(|r: RowView| r.percentage), n, byte_len("WPCT"@)),
        third: widest(rows.map_values(|r: RowView| r.third), n, byte_len(third_heading(late))),
        fourth: widest(rows.map_values(|r: RowView| r.fourth), n, byte_len(fourth_heading(late))),
    }
}

fn larger(a: usize, b: usize) -> (r: usize)
    ensures
        r == if b > a {
            b
        } else {
            a
        },
{
    if b > a {
        b
    } else {
        a
    }
}

fn heading_third(late: bool) -> (r: &'static str)
    ensures
        r@ == third_heading(late),
{
    if late {
        "M#"
    } else {
        "GB"
    }
}

fn heading_fourth(late: bool) -> (r: &'static str)
    ensures
        r@ == fourth_heading(late),
{
    if late {
        "E#"
    } else {
        "Streak"
    }
}

/// Measures the columns of a table with `rows`.
pub fn measure(rows: &Vec<Row>, late: bool) -> (r: Widths)
    ensures
        r@ == widths_of(row_views(rows@), rows@.len() as int, late),
{
    let mut w = Widths {
        name: "Team".len(),
        percentage: "WPCT".len(),
        third: heading_third(late).len(),
        fourth: heading_fourth(late).len(),
    };
    let mut i: usize = 0;
    while i < rows.len()
        invariant
            i <= rows.len(),
            w@ == widths_of(row_views(rows@), i as int, late),
        decreases rows.len() - i,
    {
        let row = &rows[i];
        proof {
            let views = row_views(rows@);
            assert(views[i as int] == row@);
            assert(views.map_values(|r: RowView| r.name)[i as int] == row@.name);
            assert(views.map_values(|r: RowView| r.percentage)[i as int] == row@.percentage);
            assert(views.map_values(|r: RowView| r.third)[i as int] == row@.third);
            assert(views.map_values(|r: RowView| r.fourth)[i as int] == row@.fourth);
        }
        w =
        Widths {
            name: larger(w.name, row.name.as_str().len()),
            percentage: larger(w.percentage, row.percentage.as_str().len()),
            third: larger(w.third, row.third.as_str().len()),
            fourth: larger(w.fourth, row.fourth.as_str().len()),
        };
        i += 1;
    }
    w
}

/// One line of the table: what leads it, then the four cells, each filled
/// with blanks to the width of its column, two blanks between them.
pub open spec fn table_line(
    lead: Seq<char>,
    a: Seq<char>,
    b: Seq<char>,
    c: Seq<char>,
    d: Seq<char>,
    w: ColumnWidths,
) -> Seq<char> {
    lead + padded_right(a, w.name) + "  "@ + padded_right(b, w.percentage) + "  "@ + padded_right(
        c,
        w.third,
    ) + "  "@ + padded_right(d, w.fourth) + "\n"@
}

/// The line that separates the first three of the wild-card ranking from the
/// rest: dashes over the width of the table.
pub open spec fn rule(w: ColumnWidths) -> Seq<char> {
    repeated('-', 2 + w.name + 2 + w.percentage + 2 + w.third + 2 + w.fourth) + "\n"@
}

/// The lines of the first `n` of `rows`. In the wild-card ranking the rule
/// follows the third line.
pub open spec fn table_body(rows: Seq<RowView>, n: int, w: ColumnWidths, wild_card: bool) -> Seq<
    char,
>
    decreases n,
{
    if n <= 0 {
        Seq::empty()
    } else {
        let row = rows[n - 1];
        table_body(rows, n - 1, w, wild_card) + table_line(
            row.marker + " "@,
            row.name,
            row.percentage,
            row.third,
            row.fourth,
            w,
        ) + if wild_card && n == 3 {
            rule(w)
        } else {
            Seq::empty()
        }
    }
}

/// The table: a code fence, the headings, the lines, a code fence.
pub open spec fn table(rows: Seq<RowView>, late: bool, wild_card: bool) -> Seq<char> {
    let w = widths_of(rows, rows.len() as int, late);
    "```\n"@ + table_line("  "@, "Team"@, "WPCT"@, third_heading(late), fourth_heading(late), w)
        + table_body(rows, rows.len() as int, w, wild_card) + "```"@
}

fn push_line(out: &mut String, lead: &str, a: &str, b: &str, c: &str, d: &str, w: Widths)
    ensures
        final(out)@ == old(out)@ + table_line(lead@, a@, b@, c@, d@, w@),
{
    out.append(lead);
    push_padded_right(out, a, w.name);
    out.append("  ");
    push_padded_right(out, b, w.percentage);
    out.append("  ");
    push_padded_right(out, c, w.third);
    out.append("  ");
    push_padded_right(out, d, w.fourth);
    out.append("\n");
    assert(out@ =~= old(out)@ + table_line(lead@, a@, b@, c@, d@, w@));
}

fn push_rule(out: &mut String, w: Widths)
    ensures
        final(out)@ == old(out)@ + rule(w@),
{
    push_repeated(out, '-', 2);
    push_repeated(out, '-', w.name);
    push_repeated(out, '-', 2);
    push_repeated(out, '-', w.percentage);
    push_repeated(out, '-', 2);
    push_repeated(out, '-', w.third);
    push_repeated(out, '-', 2);
    push_repeated(out, '-', w.fourth);
    out.append("\n");
    assert(out@ =~= old(out)@ + rule(w@));
}

/// Renders the table of `rows`.
pub fn render_table(rows: &Vec<Row>, late: bool, wild_card: bool) -> (r: String)
    ensures
        r@ == table(row_views(rows@), late, wild_card),
{
    let w = measure(rows, late);
    let mut out = String::new();
    out.append("```\n");
    push_line(&mut out, "  ", "Team", "WPCT", heading_third(late), heading_fourth(late), w);
    let ghost head = out@;
    let mut i: usize = 0;
    while i < rows.len()
        invariant
            i <= rows.len(),
            out@ == head + table_body(row_views(rows@), i as int, w@, wild_card),
        decreases rows.len() - i,
    {
        let row = &rows[i];
        assert(row_views(rows@)[i as int] == row@);
        let mut lead = String::new();
        lead.append(row.marker.as_str());
        lead.append(" ");
        assert(lead@ =~= row@.marker + " "@);
        push_line(
            &mut out,
            lead.as_str(),
            row.name.as_str(),
            row.percentage.as_str(),
            row.third.as_str(),
            row.fourth.as_str(),
            w,
        );
        if wild_card && i == 2 {
            push_rule(&mut out, w);
        }
        assert(out@ =~= head + table_body(row_views(rows@), i + 1, w@, wild_card));
        i += 1;
    }
    out.append("```");
    assert(out@ =~= table(row_views(rows@), late, wild_card));
    out
}

/// The position of the first division at or behind `from` that has the
/// identifier `id`.
pub open spec fn find_division(records: Seq<DivisionRecordView>, id: i64, from: int) -> Option<int>
    decreases records.len() - from,
{
    if from >= records.len() {
        None
    } else if records[from].id == Some(id) {
        Some(from)
    } else {
        find_division(records, id, from + 1)
    }
}

/// The teams of the first `n` divisions, in the order of the feed; `None`
/// where one of these divisions has no team list.
pub open spec fn teams_upto(records: Seq<DivisionRecordView>, n: int) -> Option<
    Seq<TeamRecordView>,
>
    decreases n,
{
    if n <= 0 {
        Some(Seq::empty())
    } else {
        match (teams_upto(records, n - 1), records[n - 1].teams) {
            (Some(before), Some(teams)) => Some(before + teams),
            _ => None,
        }
    }
}

/// Once a division without a team list has been met, there are no teams,
/// however many divisions follow.
pub proof fn lemma_teams_stay_missing(records: Seq<DivisionRecordView>, n: int, m: int)
    requires
        0 <= n <= m,
        teams_upto(records, n) is None,
    ensures
        teams_upto(records, m) is None,
    decreases m - n,
{
    if n < m {
        lemma_teams_stay_missing(records, n, m - 1);
    }
}

/// The wild-card ranking of `teams`: ordered by [`sort_key`], teams with the
/// same key in the order of the feed.
pub open spec fn wild_card_ranking(teams: Seq<TeamRecordView>) -> Seq<TeamRecordView> {
    stable_order(teams.map_values(|t: TeamRecordView| sort_key(t)), teams.len() as int).map_values(
        |i: int| teams[i],
    )
}

/// The wild-card ranking holds every team of the feed and no other, and
/// goes up by [`sort_key`]: no team stands before one with a smaller key.
pub proof fn lemma_ranking_is_ordered(teams: Seq<TeamRecordView>)
    ensures
        wild_card_ranking(teams).len() == teams.len(),
        forall|i: int| 0 <= i < teams.len() ==> wild_card_ranking(teams).contains(#[trigger] teams[i]),
        forall|p: int|
            0 <= p < teams.len() ==> teams.contains(#[trigger] wild_card_ranking(teams)[p]),
        forall|p: int, q: int|
            0 <= p < q < teams.len() ==> sort_key(#[trigger] wild_card_ranking(teams)[p])
                <= sort_key(#[trigger] wild_card_ranking(teams)[q]),
{
    let keys = teams.map_values(|t: TeamRecordView| sort_key(t));
    let order = stable_order(keys, teams.len() as int);
    let ranking = wild_card_ranking(teams);
    lemma_stable_order(keys, teams.len() as int);
    assert forall|i: int| 0 <= i < teams.len() implies ranking.contains(#[trigger] teams[i]) by {
        assert(order.contains(i));
        let k = choose|k: int| 0 <= k < order.len() && order[k] == i;
        assert(ranking[k] == teams[i]);
    }
    assert forall|p: int| 0 <= p < teams.len() implies teams.contains(#[trigger] ranking[p]) by {
        assert(0 <= order[p] < teams.len());
        assert(ranking[p] == teams[order[p]]);
    }
    assert forall|p: int, q: int| 0 <= p < q < teams.len() implies sort_key(#[trigger] ranking[p])
        <= sort_key(#[trigger] ranking[q]) by {
        assert(0 <= order[p] < teams.len() && 0 <= order[q] < teams.len());
        assert(keys[order[p]] <= keys[order[q]]);
        assert(ranking[p] == teams[order[p]] && ranking[q] == teams[order[q]]);
    }
}

/// The name of the wild-card ranking of a league.
pub open spec fn wild_card_name(league_id: i64) -> Seq<char> {
    if league_id == 103 {
        "AL Wild Card"@
    } else {
        "NL Wild Card"@
    }
}

/// The message that shows `teams` under `name`.
pub open spec fn standings_embed(
    name: Seq<char>,
    teams: Seq<TeamRecordView>,
    late: bool,
    wild_card: bool,
) -> Result<EmbedView, StandingsError> {
    match rows_upto(teams, teams.len() as int, late, wild_card) {
        Err(e) => Err(e),
        Ok(rows) => Ok(
            EmbedView {
                title: name + " Standings"@,
                description: Some(table(rows, late, wild_card)),
                thumbnail: None,
                fields: Seq::empty(),
            },
        ),
    }
}

/// The standings that `query` asks for, from the divisions of the feed. A
/// division goes by the month of its last update, the wild-card ranking by
/// the month `month`; September and later months are late in the season.
pub open spec fn standings(
    query: StandingsQuery,
    records: Option<Seq<DivisionRecordView>>,
    month: u32,
) -> Result<EmbedView, StandingsError> {
    match records {
        None => Err(StandingsError::Records),
        Some(divisions) => if query.wild_card {
            match teams_upto(divisions, divisions.len() as int) {
                None => Err(StandingsError::Teams),
                Some(teams) => standings_embed(
                    wild_card_name(query.league_id),
                    wild_card_ranking(teams),
                    month >= 9,
                    true,
                ),
            }
        } else {
            match find_division(divisions, query.division_id, 0) {
                None => Err(StandingsError::Division),
                Some(k) => division_embed(divisions[k]),
            }
        },
    }
}

fn key_of(team: &TeamRecord) -> (r: u8)
    ensures
        r == sort_key(team@),
{
    let rank = match &team.wild_card_rank {
        Some(t) => parse_unsigned(t.as_str(), 255),
        None => parse_unsigned("0", 255),
    };
    match rank {
        Some(v) => v as u8,
        None => 0,
    }
}

fn show<'a>(name: &str, teams: &Vec<&'a TeamRecord>, late: bool, wild_card: bool) -> (r: Result<
    Embed,
    StandingsError,
>)
    ensures
        match r {
            Ok(e) => Ok(e@),
            Err(e) => Err(e),
        } == standings_embed(name@, shown_views(teams@), late, wild_card),
{
    match make_rows(teams, late, wild_card) {
        Err(e) => Err(e),
        Ok(rows) => {
            let mut title = String::new();
            title.append(name);
            title.append(" Standings");
            assert(title@ =~= name@ + " Standings"@);
            let e = Embed {
                title,
                description: Some(render_table(&rows, late, wild_card)),
                thumbnail: None,
                fields: Vec::new(),
            };
            assert(e@.fields =~= Seq::empty());
            Ok(e)
        },
    }
}

fn borrow_into<'a>(out: &mut Vec<&'a TeamRecord>, teams: &'a Vec<TeamRecord>)
    ensures
        shown_views(final(out)@) == shown_views(old(out)@) + team_views(teams@),
{
    let ghost before = shown_views(out@);
    let mut j: usize = 0;
    assert(before + team_views(teams@).take(0) =~= before);
    while j < teams.len()
        invariant
            j <= teams.len(),
            shown_views(out@) == before + team_views(teams@).take(j as int),
        decreases teams.len() - j,
    {
        let ghost sofar = shown_views(out@);
        let team = &teams[j];
        out.push(team);
        assert(shown_views(out@) =~= sofar.push(team@));
        assert(team_views(teams@).take(j + 1) =~= team_views(teams@).take(j as int).push(team@));
        assert(shown_views(out@) =~= before + team_views(teams@).take(j + 1));
        j += 1;
    }
    assert(team_views(teams@).take(teams@.len() as int) =~= team_views(teams@));
}

fn collect_teams<'a>(divisions: &'a Vec<DivisionRecord>) -> (r: Option<Vec<&'a TeamRecord>>)
    ensures
        match r {
            Some(v) => Some(shown_views(v@)),
            None => None,
        } == teams_upto(division_views(divisions@), divisions@.len() as int),
{
    let ghost models = division_views(divisions@);
    let mut out: Vec<&TeamRecord> = Vec::new();
    let mut i: usize = 0;
    assert(shown_views(out@) =~= Seq::empty());
    while i < divisions.len()
        invariant
            i <= divisions.len(),
            models == division_views(divisions@),
            teams_upto(models, i as int) == Some(shown_views(out@)),
        decreases divisions.len() - i,
    {
        assert(models[i as int] == divisions@[i as int]@);
        let teams = match &divisions[i].teams {
            Some(t) => t,
            None => {
                proof {
                    assert(teams_upto(models, i + 1) is None);
                    lemma_teams_stay_missing(models, i + 1, divisions@.len() as int);
                }
                return None;
            },
        };
        borrow_into(&mut out, teams);
        i += 1;
    }
    Some(out)
}

fn rank<'a>(teams: &Vec<&'a TeamRecord>) -> (r: Vec<&'a TeamRecord>)
    ensures
        shown_views(r@) == wild_card_ranking(shown_views(teams@)),
{
    let ghost models = shown_views(teams@);
    let mut keys: Vec<u8> = Vec::new();
    let mut i: usize = 0;
    while i < teams.len()
        invariant
            i <= teams.len(),
            models == shown_views(teams@),
            keys@.len() == i,
            forall|k: int| 0 <= k < i ==> keys@[k] == sort_key(models[k]),
        decreases teams.len() - i,
    {
        assert(models[i as int] == teams@[i as int]@);
        keys.push(key_of(teams[i]));
        i += 1;
    }
    assert(keys@ =~= models.map_values(|t: TeamRecordView| sort_key(t)));
    let order = order_by_key(&keys);
    let ghost wanted = stable_order(keys@, keys@.len() as int);
    let mut out: Vec<&TeamRecord> = Vec::new();
    let mut p: usize = 0;
    while p < order.len()
        invariant
            p <= order.len(),
            order.len() == keys.len() == teams.len(),
            models == shown_views(teams@),
            positions(order@) == wanted,
            forall|q: int| 0 <= q < order.len() ==> order[q] < keys.len(),
            out@.len() == p,
            forall|q: int| 0 <= q < p ==> (#[trigger] out@[q])@ == models[wanted[q]],
        decreases order.len() - p,
    {
        assert(wanted[p as int] == positions(order@)[p as int]);
        assert(models[order[p as int] as int] == teams@[order[p as int] as int]@);
        out.push(teams[order[p]]);
        p += 1;
    }
    assert(shown_views(out@) =~= wild_card_ranking(models));
    out
}

/// The message that shows one division.
pub open spec fn division_embed(division: DivisionRecordView) -> Result<EmbedView, StandingsError> {
    if division.short_name is None {
        Err(StandingsError::DivisionName)
    } else if division.teams is None {
        Err(StandingsError::Teams)
    } else if division.updated_month is None {
        Err(StandingsError::Timestamp)
    } else {
        standings_embed(
            division.short_name->Some_0,
            division.teams->Some_0,
            division.updated_month->Some_0 >= 9,
            false,
        )
    }
}

fn show_division(division: &DivisionRecord) -> (r: Result<Embed, StandingsError>)
    ensures
        match r {
            Ok(e) => Ok(e@),
            Err(e) => Err(e),
        } == division_embed(division@),
{
    let name = match &division.short_name {
        Some(n) => n,
        None => {
            return Err(StandingsError::DivisionName);
        },
    };
    let teams = match &division.teams {
        Some(t) => t,
        None => {
            return Err(StandingsError::Teams);
        },
    };
    let updated = match division.updated_month {
        Some(m) => m,
        None => {
            return Err(StandingsError::Timestamp);
        },
    };
    let mut shown: Vec<&TeamRecord> = Vec::new();
    assert(shown_views(shown@) =~= Seq::empty());
    borrow_into(&mut shown, teams);
    assert(shown_views(shown@) =~= team_views(teams@));
    show(name.as_str(), &shown, updated >= 9, false)
}

/// Builds the standings that `query` asks for from the divisions of the
/// feed; `month` is the current month, by which the wild-card ranking goes.
pub fn render_standings(
    query: StandingsQuery,
    records: &Option<Vec<DivisionRecord>>,
    month: u32,
) -> (r: Result<Embed, StandingsError>)
    ensures
        match r {
            Ok(e) => Ok(e@),
            Err(e) => Err(e),
        } == standings(
            query,
            match records {
                Some(v) => Some(division_views(v@)),
                None => None,
            },
            month,
        ),
{
    let divisions = match records {
        Some(d) => d,
        None => {
            return Err(StandingsError::Records);
        },
    };
    let ghost models = division_views(divisions@);
    if query.wild_card {
        let teams = match collect_teams(divisions) {
            Some(t) => t,
            None => {
                return Err(StandingsError::Teams);
            },
        };
        let ranked = rank(&teams);
        let name = if query.league_id == 103 {
            "AL Wild Card"
        } else {
            "NL Wild Card"
        };
        show(name, &ranked, month >= 9, true)
    } else {
        let mut k: usize = 0;
        while k < divisions.len()
            invariant
                k <= divisions.len(),
                !query.wild_card,
                models == division_views(divisions@),
                (match records {
                    Some(v) => Some(division_views(v@)),
                    None => None,
                }) == Some(models),
                find_division(models, query.division_id, 0) == find_division(
                    models,
                    query.division_id,
                    k as int,
                ),
            decreases divisions.len() - k,
        {
            assert(models[k as int] == divisions@[k as int]@);
            let found = match divisions[k].id {
                Some(id) => id == query.division_id,
                None => false,
            };
            if found {
                return show_division(&divisions[k]);
            }
            k += 1;
        }
        Err(StandingsError::Division)
    }
}

/// The answer to the standings command `content`, given the standings feed
/// and the current month.
pub open spec fn standings_reply(content: Seq<char>, feed: Json, month: u32) -> Result<
    EmbedView,
    StandingsError,
> {
    standings(standings_query(content), records_of(feed), month)
}

/// Answers the standings command `content` from the standings feed, with
/// `month` as the current month.
pub fn standings_in_month(content: &str, feed: &Document, month: u32) -> (r: Result<
    Embed,
    StandingsError,
>)
    ensures
        match r {
            Ok(e) => Ok(e@),
            Err(e) => Err(e),
        } == standings_reply(content@, feed@, month),
{
    let records = read_records(feed);
    render_standings(parse_query(content), &records, month)
}

impl Handler {
    /// Answers the standings command `content` from the standings feed. The
    /// wild-card ranking goes by the current month, whichever it is; a
    /// division goes by the month of its last update.
    pub fn standings(&self, content: &str, feed: &Document) -> (r: Result<Embed, StandingsError>)
        ensures
            exists|month: u32|
                1 <= month <= 12 && match r {
                    Ok(e) => Ok(e@),
                    Err(e) => Err(e),
                } == #[trigger] standings_reply(content@, feed@, month),
    {
        let month = if parse_query(content).wild_card {
            month_now()
        } else {
            1
        };
        standings_in_month(content, feed, month)
    }
}

} // verus!
