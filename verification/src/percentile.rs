//! Percentile rankings of one player: the record, how it is read from the
//! statistics table of a player's page, and how it is rendered.

use crate::html::child_elements;
use crate::html::first_match;
use crate::html::inner_html;
use crate::html::page_of;
use crate::html::parse_document;
use crate::html::select_first;
use crate::html::Element;
use crate::message::opt_text;
use crate::message::Embed;
use crate::message::EmbedView;
use crate::text::decimal;
use crate::text::decimal_string;
use crate::text::padded_left;
use crate::text::padded_right;
use crate::text::push_decimal;
use crate::text::push_padded_left;
use crate::text::push_padded_right;
use crate::text::push_repeated;
use crate::text::repeated;
use crate::text::parse_unsigned;
use crate::text::same;
use crate::text::squeeze;
use crate::text::squeezed;
use crate::text::unsigned_value;
use scraper::ElementRef;
use scraper::Html;
use vstd::prelude::*;
use vstd::string::StringExecFns;

verus! {

/// The statistics that are ranked.
#[derive(Clone, Copy, PartialEq, Eq, Structural, Debug)]
pub enum Stat {
    XwOba,
    XBa,
    XSlg,
    AvgEv,
    BatSpeed,
    BarrelPct,
    HardHitPct,
    ChasePct,
    WhiffPct,
    KPct,
    BbPct,
    Oaa,
    ArmStrength,
    Speed,
    XEra,
    FbVelo,
    FbSpin,
    CbSpin,
    Extension,
}

/// What a column of the table is, going by its label.
#[derive(Clone, Copy, PartialEq, Eq, Structural, Debug)]
pub enum Column {
    /// It ranks a statistic of the record.
    Ranked(Stat),
    /// It is known and not shown.
    Skipped,
    /// Its label is none of the known ones.
    Unrecognized,
}

/// The column that a label names. The label is compared as it stands, line
/// break markup included.
pub open spec fn column_of(label: Seq<char>) -> Column {
    if label == "xwOBA"@ {
        Column::Ranked(Stat::XwOba)
    } else if label == "xBA"@ {
        Column::Ranked(Stat::XBa)
    } else if label == "xSLG"@ {
        Column::Ranked(Stat::XSlg)
    } else if label == "Brl%"@ {
        Column::Ranked(Stat::BarrelPct)
    } else if label == "EV"@ {
        Column::Ranked(Stat::AvgEv)
    } else if label == "Hard <br>Hit%"@ {
        Column::Ranked(Stat::HardHitPct)
    } else if label == "K%"@ {
        Column::Ranked(Stat::KPct)
    } else if label == "BB%"@ {
        Column::Ranked(Stat::BbPct)
    } else if label == "Whiff%"@ {
        Column::Ranked(Stat::WhiffPct)
    } else if label == "Chase <br>Rate"@ {
        Column::Ranked(Stat::ChasePct)
    } else if label == "Speed"@ {
        Column::Ranked(Stat::Speed)
    } else if label == "OAA"@ {
        Column::Ranked(Stat::Oaa)
    } else if label == "Arm <br> Strength"@ {
        Column::Ranked(Stat::ArmStrength)
    } else if label == "Bat <br> Speed"@ {
        Column::Ranked(Stat::BatSpeed)
    } else if label == "xwOBA / <br>xERA"@ {
        Column::Ranked(Stat::XEra)
    } else if label == "FB <br>Velo"@ {
        Column::Ranked(Stat::FbVelo)
    } else if label == "FB <br>Spin"@ {
        Column::Ranked(Stat::FbSpin)
    } else if label == "CB <br>Spin"@ {
        Column::Ranked(Stat::CbSpin)
    } else if label == "Extension"@ {
        Column::Ranked(Stat::Extension)
    } else if label == "Year"@ || label == "xISO"@ || label == "xOBP"@ || label == "Brl"@ || label
        == "Max EV"@ || label == "Swing <br> Length"@ {
        Column::Skipped
    } else {
        Column::Unrecognized
    }
}

/// Finds the column that `label` names.
pub fn classify(label: &str) -> (r: Column)
    ensures
        r == column_of(label@),
{
    if same(label, "xwOBA") {
        Column::Ranked(Stat::XwOba)
    } else if same(label, "xBA") {
        Column::Ranked(Stat::XBa)
    } else if same(label, "xSLG") {
        Column::Ranked(Stat::XSlg)
    } else if same(label, "Brl%") {
        Column::Ranked(Stat::BarrelPct)
    } else if same(label, "EV") {
        Column::Ranked(Stat::AvgEv)
    } else if same(label, "Hard <br>Hit%") {
        Column::Ranked(Stat::HardHitPct)
    } else if same(label, "K%") {
        Column::Ranked(Stat::KPct)
    } else if same(label, "BB%") {
        Column::Ranked(Stat::BbPct)
    } else if same(label, "Whiff%") {
        Column::Ranked(Stat::WhiffPct)
    } else if same(label, "Chase <br>Rate") {
        Column::Ranked(Stat::ChasePct)
    } else if same(label, "Speed") {
        Column::Ranked(Stat::Speed)
    } else if same(label, "OAA") {
        Column::Ranked(Stat::Oaa)
    } else if same(label, "Arm <br> Strength") {
        Column::Ranked(Stat::ArmStrength)
    } else if same(label, "Bat <br> Speed") {
        Column::Ranked(Stat::BatSpeed)
    } else if same(label, "xwOBA / <br>xERA") {
        Column::Ranked(Stat::XEra)
    } else if same(label, "FB <br>Velo") {
        Column::Ranked(Stat::FbVelo)
    } else if same(label, "FB <br>Spin") {
        Column::Ranked(Stat::FbSpin)
    } else if same(label, "CB <br>Spin") {
        Column::Ranked(Stat::CbSpin)
    } else if same(label, "Extension") {
        Column::Ranked(Stat::Extension)
    } else if same(label, "Year") || same(label, "xISO") || same(label, "xOBP") || same(
        label,
        "Brl",
    ) || same(label, "Max EV") || same(label, "Swing <br> Length") {
        Column::Skipped
    } else {
        Column::Unrecognized
    }
}

/// The percentile of each ranked statistic, where the player has one.
#[derive(Clone, Copy, PartialEq, Eq, Structural, Debug)]
pub struct Percentiles {
    pub xwoba: Option<u16>,
    pub xba: Option<u16>,
    pub xslg: Option<u16>,
    pub avg_ev: Option<u16>,
    pub bat_speed: Option<u16>,
    pub barrel_pct: Option<u16>,
    pub hard_hit_pct: Option<u16>,
    pub chase_pct: Option<u16>,
    pub whiff_pct: Option<u16>,
    pub k_pct: Option<u16>,
    pub bb_pct: Option<u16>,
    pub oaa: Option<u16>,
    pub arm_strength: Option<u16>,
    pub speed: Option<u16>,
    pub xera: Option<u16>,
    pub fb_velo: Option<u16>,
    pub fb_spin: Option<u16>,
    pub cb_spin: Option<u16>,
    pub extension: Option<u16>,
}

impl Percentiles {
    /// The record in which nothing is ranked.
    pub open spec fn empty() -> Percentiles {
        Percentiles {
            xwoba: None,
            xba: None,
            xslg: None,
            avg_ev: None,
            bat_speed: None,
            barrel_pct: None,
            hard_hit_pct: None,
            chase_pct: None,
            whiff_pct: None,
            k_pct: None,
            bb_pct: None,
            oaa: None,
            arm_strength: None,
            speed: None,
            xera: None,
            fb_velo: None,
            fb_spin: None,
            cb_spin: None,
            extension: None,
        }
    }

    /// The percentile of `stat`.
    pub open spec fn get(self, stat: Stat) -> Option<u16> {
        match stat {
            Stat::XwOba => self.xwoba,
            Stat::XBa => self.xba,
            Stat::XSlg => self.xslg,
            Stat::AvgEv => self.avg_ev,
            Stat::BatSpeed => self.bat_speed,
            Stat::BarrelPct => self.barrel_pct,
            Stat::HardHitPct => self.hard_hit_pct,
            Stat::ChasePct => self.chase_pct,
            Stat::WhiffPct => self.whiff_pct,
            Stat::KPct => self.k_pct,
            Stat::BbPct => self.bb_pct,
            Stat::Oaa => self.oaa,
            Stat::ArmStrength => self.arm_strength,
            Stat::Speed => self.speed,
            Stat::XEra => self.xera,
            Stat::FbVelo => self.fb_velo,
            Stat::FbSpin => self.fb_spin,
            Stat::CbSpin => self.cb_spin,
            Stat::Extension => self.extension,
        }
    }

    /// The record with the percentile of `stat` replaced by `value`.
    pub open spec fn with(self, stat: Stat, value: Option<u16>) -> Percentiles {
        match stat {
            Stat::XwOba => Percentiles { xwoba: value, ..self },
            Stat::XBa => Percentiles { xba: value, ..self },
            Stat::XSlg => Percentiles { xslg: value, ..self },
            Stat::AvgEv => Percentiles { avg_ev: value, ..self },
            Stat::BatSpeed => Percentiles { bat_speed: value, ..self },
            Stat::BarrelPct => Percentiles { barrel_pct: value, ..self },
            Stat::HardHitPct => Percentiles { hard_hit_pct: value, ..self },
            Stat::ChasePct => Percentiles { chase_pct: value, ..self },
            Stat::WhiffPct => Percentiles { whiff_pct: value, ..self },
            Stat::KPct => Percentiles { k_pct: value, ..self },
            Stat::BbPct => Percentiles { bb_pct: value, ..self },
            Stat::Oaa => Percentiles { oaa: value, ..self },
            Stat::ArmStrength => Percentiles { arm_strength: value, ..self },
            Stat::Speed => Percentiles { speed: value, ..self },
            Stat::XEra => Percentiles { xera: value, ..self },
            Stat::FbVelo => Percentiles { fb_velo: value, ..self },
            Stat::FbSpin => Percentiles { fb_spin: value, ..self },
            Stat::CbSpin => Percentiles { cb_spin: value, ..self },
            Stat::Extension => Percentiles { extension: value, ..self },
        }
    }

    /// Whether the player bats: the expected weighted on-base average is
    /// ranked.
    pub open spec fn is_hitter(self) -> bool {
        self.xwoba is Some
    }

    /// Whether the player fields: outs above average or arm strength is
    /// ranked.
    pub open spec fn is_fielder(self) -> bool {
        self.oaa is Some || self.arm_strength is Some
    }

    /// Whether the player runs: sprint speed is ranked.
    pub open spec fn is_runner(self) -> bool {
        self.speed is Some
    }

    /// Whether the player pitches: the expected earned run average is ranked.
    pub open spec fn is_pitcher(self) -> bool {
        self.xera is Some
    }

    /// A record without any percentile.
    pub fn new() -> (r: Percentiles)
        ensures
            r == Percentiles::empty(),
    {
        Percentiles {
            xwoba: None,
            xba: None,
            xslg: None,
            avg_ev: None,
            bat_speed: None,
            barrel_pct: None,
            hard_hit_pct: None,
            chase_pct: None,
            whiff_pct: None,
            k_pct: None,
            bb_pct: None,
            oaa: None,
            arm_strength: None,
            speed: None,
            xera: None,
            fb_velo: None,
            fb_spin: None,
            cb_spin: None,
            extension: None,
        }
    }

    /// Replaces the percentile of `stat` by `value`.
    pub fn set(&mut self, stat: Stat, value: Option<u16>)
        ensures
            *final(self) == old(self).with(stat, value),
    {
        match stat {
            Stat::XwOba => self.xwoba = value,
            Stat::XBa => self.xba = value,
            Stat::XSlg => self.xslg = value,
            Stat::AvgEv => self.avg_ev = value,
            Stat::BatSpeed => self.bat_speed = value,
            Stat::BarrelPct => self.barrel_pct = value,
            Stat::HardHitPct => self.hard_hit_pct = value,
            Stat::ChasePct => self.chase_pct = value,
            Stat::WhiffPct => self.whiff_pct = value,
            Stat::KPct => self.k_pct = value,
            Stat::BbPct => self.bb_pct = value,
            Stat::Oaa => self.oaa = value,
            Stat::ArmStrength => self.arm_strength = value,
            Stat::Speed => self.speed = value,
            Stat::XEra => self.xera = value,
            Stat::FbVelo => self.fb_velo = value,
            Stat::FbSpin => self.fb_spin = value,
            Stat::CbSpin => self.cb_spin = value,
            Stat::Extension => self.extension = value,
        }
    }
}

/// Each role goes by its own statistics alone: ranking any other statistic,
/// or taking its rank away, leaves the role as it was.
pub proof fn lemma_roles_independent(p: Percentiles, stat: Stat, value: Option<u16>)
    ensures
        stat != Stat::XwOba ==> p.with(stat, value).is_hitter() == p.is_hitter(),
        stat != Stat::Oaa && stat != Stat::ArmStrength ==> p.with(stat, value).is_fielder()
            == p.is_fielder(),
        stat != Stat::Speed ==> p.with(stat, value).is_runner() == p.is_runner(),
        stat != Stat::XEra ==> p.with(stat, value).is_pitcher() == p.is_pitcher(),
{
}

/// A record holds what was last put into it, and nothing else changes.
pub proof fn lemma_with_get(p: Percentiles, stat: Stat, value: Option<u16>, other: Stat)
    ensures
        p.with(stat, value).get(stat) == value,
        other != stat ==> p.with(stat, value).get(other) == p.get(other),
{
}

/// The texts of a table that the rankings are read from: the player's name,
/// the season of the row, the labels of the header and what stands in the
/// row's cells, position by position. A cell without an element inside holds
/// `None`.
#[derive(Clone, Debug, PartialEq, Eq)]
pub struct PercentileTable {
    pub name: String,
    pub year: u16,
    pub labels: Vec<String>,
    pub cells: Vec<Option<String>>,
}

/// What a [`PercentileTable`] holds.
pub struct PercentileTableView {
    pub name: Seq<char>,
    pub year: u16,
    pub labels: Seq<Seq<char>>,
    pub cells: Seq<Option<Seq<char>>>,
}

/// The characters of each text of `v`.
pub open spec fn strings(v: Seq<String>) -> Seq<Seq<char>> {
    v.map_values(|s: String| s@)
}

/// The characters of each text of `v` that is there.
pub open spec fn opt_strings(v: Seq<Option<String>>) -> Seq<Option<Seq<char>>> {
    v.map_values(|s: Option<String>| opt_text(s))
}

impl View for PercentileTable {
    type V = PercentileTableView;

    open spec fn view(&self) -> PercentileTableView {
        PercentileTableView {
            name: self.name@,
            year: self.year,
            labels: strings(self.labels@),
            cells: opt_strings(self.cells@),
        }
    }
}

/// The rankings of one player in one season.
#[derive(Clone, Debug, PartialEq, Eq)]
pub struct PercentileRankings {
    pub year: u16,
    pub name: String,
    pub stats: Percentiles,
    /// The labels of the table that name no known column, in table order.
    pub unrecognized: Vec<String>,
}

/// What a [`PercentileRankings`] holds.
pub struct PercentileRankingsView {
    pub year: u16,
    pub name: Seq<char>,
    pub stats: Percentiles,
    pub unrecognized: Seq<Seq<char>>,
}

impl View for PercentileRankings {
    type V = PercentileRankingsView;

    open spec fn view(&self) -> PercentileRankingsView {
        PercentileRankingsView {
            year: self.year,
            name: self.name@,
            stats: self.stats,
            unrecognized: strings(self.unrecognized@),
        }
    }
}

impl PercentileRankings {
    /// Whether the player bats.
    pub fn hitter(&self) -> (r: bool)
        ensures
            r == self.stats.is_hitter(),
    {
        self.stats.xwoba.is_some()
    }

    /// Whether the player fields.
    pub fn fielder(&self) -> (r: bool)
        ensures
            r == self.stats.is_fielder(),
    {
        self.stats.oaa.is_some() || self.stats.arm_strength.is_some()
    }

    /// Whether the player runs.
    pub fn runner(&self) -> (r: bool)
        ensures
            r == self.stats.is_runner(),
    {
        self.stats.speed.is_some()
    }

    /// Whether the player pitches.
    pub fn pitcher(&self) -> (r: bool)
        ensures
            r == self.stats.is_pitcher(),
    {
        self.stats.xera.is_some()
    }
}

/// The percentile that a cell holds: its text read as a number of at most
/// 65535. A missing cell and a text that is no such number hold none.
pub open spec fn cell_percentile(cell: Option<Seq<char>>) -> Option<u16> {
    match cell {
        Some(t) => match unsigned_value(t, 65535) {
            Some(v) => Some(v as u16),
            None => None,
        },
        None => None,
    }
}

/// The percentile in column `i` of a row; none where the row is shorter.
pub open spec fn percentile_at(cells: Seq<Option<Seq<char>>>, i: int) -> Option<u16> {
    if 0 <= i < cells.len() {
        cell_percentile(cells[i])
    } else {
        None
    }
}

/// The record after the first `n` columns: each column that ranks a
/// statistic puts the percentile of its cell into the record, later columns
/// over earlier ones.
pub open spec fn ranked(labels: Seq<Seq<char>>, cells: Seq<Option<Seq<char>>>, n: int)
    -> Percentiles
    decreases n,
{
    if n <= 0 {
        Percentiles::empty()
    } else {
        let before = ranked(labels, cells, n - 1);
        match column_of(squeezed(labels[n - 1])) {
            Column::Ranked(stat) => before.with(stat, percentile_at(cells, n - 1)),
            _ => before,
        }
    }
}

/// The labels among the first `n` that name no known column, with single
/// blanks between their words.
pub open spec fn unrecognized(labels: Seq<Seq<char>>, n: int) -> Seq<Seq<char>>
    decreases n,
{
    if n <= 0 {
        Seq::empty()
    } else {
        let before = unrecognized(labels, n - 1);
        if column_of(squeezed(labels[n - 1])) == Column::Unrecognized {
            before.push(squeezed(labels[n - 1]))
        } else {
            before
        }
    }
}

/// The position of the last column among the first `n` that ranks `stat`.
pub open spec fn last_column(labels: Seq<Seq<char>>, stat: Stat, n: int) -> Option<int>
    decreases n,
{
    if n <= 0 {
        None
    } else if column_of(squeezed(labels[n - 1])) == Column::Ranked(stat) {
        Some(n - 1)
    } else {
        last_column(labels, stat, n - 1)
    }
}

/// A statistic has the percentile of the cell under the last column that
/// ranks it, and none where no column ranks it.
pub proof fn lemma_ranked_by_last_column(
    labels: Seq<Seq<char>>,
    cells: Seq<Option<Seq<char>>>,
    n: int,
    stat: Stat,
)
    ensures
        ranked(labels, cells, n).get(stat) == match last_column(labels, stat, n) {
            Some(i) => percentile_at(cells, i),
            None => None,
        },
    decreases n,
{
    if n > 0 {
        lemma_ranked_by_last_column(labels, cells, n - 1, stat);
        let before = ranked(labels, cells, n - 1);
        match column_of(squeezed(labels[n - 1])) {
            Column::Ranked(other) => {
                lemma_with_get(before, other, percentile_at(cells, n - 1), stat);
            },
            _ => {},
        }
    }
}

/// The rankings that a table gives.
pub open spec fn rankings_of(t: PercentileTableView) -> PercentileRankingsView {
    PercentileRankingsView {
        year: t.year,
        name: t.name,
        stats: ranked(t.labels, t.cells, t.labels.len() as int),
        unrecognized: unrecognized(t.labels, t.labels.len() as int),
    }
}

/// Reads the percentile of a cell.
pub fn read_percentile(cell: &Option<String>) -> (r: Option<u16>)
    ensures
        r == cell_percentile(opt_text(*cell)),
{
    match cell {
        Some(t) => match parse_unsigned(t.as_str(), 65535) {
            Some(v) => Some(v as u16),
            None => None,
        },
        None => None,
    }
}

/// Reads the rankings from the texts of a table: labels and cells are paired
/// by position, a label is understood with single blanks between its words,
/// and labels that name no known column are collected, not refused.
pub fn rank(table: PercentileTable) -> (r: PercentileRankings)
    ensures
        r@ == rankings_of(table@),
{
    let mut stats = Percentiles::new();
    let mut unknown: Vec<String> = Vec::new();
    let mut i: usize = 0;
    while i < table.labels.len()
        invariant
            i <= table.labels.len(),
            stats == ranked(strings(table.labels@), opt_strings(table.cells@), i as int),
            strings(unknown@) == unrecognized(strings(table.labels@), i as int),
        decreases table.labels.len() - i,
    {
        let label = squeeze(table.labels[i].as_str());
        let value = if i < table.cells.len() {
            read_percentile(&table.cells[i])
        } else {
            None
        };
        match classify(label.as_str()) {
            Column::Ranked(stat) => {
                stats.set(stat, value);
            },
            Column::Skipped => {},
            Column::Unrecognized => {
                let ghost before = strings(unknown@);
                unknown.push(label);
                assert(strings(unknown@) =~= before.push(label@));
            },
        }
        i += 1;
    }
    PercentileRankings { year: table.year, name: table.name, stats, unrecognized: unknown }
}

/// Why a page with a rankings table could not be read.
#[derive(Clone, Copy, PartialEq, Eq, Structural, Debug)]
pub enum PageError {
    /// The table has no second child: the body is missing.
    NoTableBody,
    /// The body of the table has no row.
    NoSeasonRow,
    /// The page has no name container, or the container is empty.
    NoPlayerName,
    /// The row has no first cell, the cell is empty, or its text is no year.
    NoYear,
    /// The head of the table has no row.
    NoHeaderRow,
}

impl PageError {
    /// The error in words.
    pub open spec fn text(self) -> Seq<char> {
        match self {
            PageError::NoTableBody => "Could not get the body of the rankings table"@,
            PageError::NoSeasonRow => "Could not get a season of the rankings table"@,
            PageError::NoPlayerName => "Could not get player name"@,
            PageError::NoYear => "Could not get the year of the season"@,
            PageError::NoHeaderRow => "Could not get the header of the rankings table"@,
        }
    }

    /// The error in words, for a log.
    pub fn message(&self) -> (r: &'static str)
        ensures
            r@ == self.text(),
    {
        match self {
            PageError::NoTableBody => "Could not get the body of the rankings table",
            PageError::NoSeasonRow => "Could not get a season of the rankings table",
            PageError::NoPlayerName => "Could not get player name",
            PageError::NoYear => "Could not get the year of the season",
            PageError::NoHeaderRow => "Could not get the header of the rankings table",
        }
    }
}

/// The markup inside the first child of `e`, if it has one.
pub open spec fn first_child_html(e: Element) -> Option<Seq<char>> {
    if e.children.len() > 0 {
        Some(e.children[0].inner_html)
    } else {
        None
    }
}

/// The season that the first cell of a row names.
pub open spec fn row_year(row: Seq<Element>) -> Option<u16> {
    if row.len() > 0 {
        cell_percentile(first_child_html(row[0]))
    } else {
        None
    }
}

/// The texts of the rankings table `table` of a page whose name container is
/// `name_box`: the header is the first row of the table's first child, the
/// season is the last row of its second child.
pub open spec fn table_of(table: Element, name_box: Option<Element>) -> Result<
    PercentileTableView,
    PageError,
> {
    if table.children.len() < 2 {
        Err(PageError::NoTableBody)
    } else if table.children[1].children.len() == 0 {
        Err(PageError::NoSeasonRow)
    } else {
        let row = table.children[1].children.last().children;
        if name_box is None || name_box->Some_0.children.len() == 0 {
            Err(PageError::NoPlayerName)
        } else if row_year(row) is None {
            Err(PageError::NoYear)
        } else if table.children[0].children.len() == 0 {
            Err(PageError::NoHeaderRow)
        } else {
            Ok(
                PercentileTableView {
                    name: name_box->Some_0.children[0].inner_html,
                    year: row_year(row)->Some_0,
                    labels: table.children[0].children[0].children.map_values(
                        |e: Element| e.inner_html,
                    ),
                    cells: row.map_values(|e: Element| first_child_html(e)),
                },
            )
        }
    }
}

fn first_child_text(e: ElementRef) -> (r: Option<String>)
    ensures
        opt_text(r) == first_child_html(crate::html::element_of(e)),
{
    let kids = child_elements(e);
    if kids.len() > 0 {
        Some(inner_html(kids[0]))
    } else {
        None
    }
}

/// Reads the texts of the rankings table behind `table`.
pub fn read_table(table: ElementRef, name_box: Option<ElementRef>) -> (r: Result<
    PercentileTable,
    PageError,
>)
    ensures
        match r {
            Ok(t) => Ok(t@),
            Err(e) => Err(e),
        } == table_of(
            crate::html::element_of(table),
            match name_box {
                Some(b) => Some(crate::html::element_of(b)),
                None => None,
            },
        ),
{
    let parts = child_elements(table);
    if parts.len() < 2 {
        return Err(PageError::NoTableBody);
    }
    let rows = child_elements(parts[1]);
    if rows.len() == 0 {
        return Err(PageError::NoSeasonRow);
    }
    let row = child_elements(rows[rows.len() - 1]);
    let ghost row_model = crate::html::element_of(rows[rows.len() - 1]).children;
    let name = match name_box {
        None => {
            return Err(PageError::NoPlayerName);
        },
        Some(b) => {
            let inside = child_elements(b);
            if inside.len() == 0 {
                return Err(PageError::NoPlayerName);
            }
            inner_html(inside[0])
        },
    };
    if row.len() == 0 {
        return Err(PageError::NoYear);
    }
    let year_text = first_child_text(row[0]);
    let year = match read_percentile(&year_text) {
        None => {
            return Err(PageError::NoYear);
        },
        Some(y) => y,
    };
    let head = child_elements(parts[0]);
    if head.len() == 0 {
        return Err(PageError::NoHeaderRow);
    }
    let columns = child_elements(head[0]);
    let ghost columns_model = crate::html::element_of(head[0]).children;
    let mut labels: Vec<String> = Vec::new();
    let mut i: usize = 0;
    while i < columns.len()
        invariant
            i <= columns.len(),
            columns@.len() == columns_model.len(),
            forall|k: int|
                0 <= k < columns@.len() ==> crate::html::element_of(#[trigger] columns@[k])
                    == columns_model[k],
            labels@.len() == i,
            forall|k: int| 0 <= k < i ==> (#[trigger] labels@[k])@ == columns_model[k].inner_html,
        decreases columns.len() - i,
    {
        labels.push(inner_html(columns[i]));
        i += 1;
    }
    let mut cells: Vec<Option<String>> = Vec::new();
    let mut j: usize = 0;
    while j < row.len()
        invariant
            j <= row.len(),
            row@.len() == row_model.len(),
            forall|k: int|
                0 <= k < row@.len() ==> crate::html::element_of(#[trigger] row@[k]) == row_model[k],
            cells@.len() == j,
            forall|k: int|
                0 <= k < j ==> opt_text(#[trigger] cells@[k]) == first_child_html(row_model[k]),
        decreases row.len() - j,
    {
        cells.push(first_child_text(row[j]));
        j += 1;
    }
    let t = PercentileTable { name, year, labels, cells };
    proof {
        assert(t@.labels =~= columns_model.map_values(|e: Element| e.inner_html));
        assert(t@.cells =~= row_model.map_values(|e: Element| first_child_html(e)));
    }
    Ok(t)
}

/// The selector of the rankings table.
pub open spec fn table_selector() -> Seq<char> {
    "table[id=percentileRankings]"@
}

/// The selector of the container of the player's name.
pub open spec fn name_selector() -> Seq<char> {
    "div[class=\"bio-player-name\"]"@
}

/// The rankings that a page shows: none where it has no rankings table.
pub open spec fn page_rankings(page: Html) -> Result<Option<PercentileRankingsView>, PageError> {
    match first_match(page, table_selector()) {
        None => Ok(None),
        Some(table) => match table_of(table, first_match(page, name_selector())) {
            Ok(t) => Ok(Some(rankings_of(t))),
            Err(e) => Err(e),
        },
    }
}

/// Reads the rankings of a player from the text of the player's page. A page
/// without a rankings table gives `Ok(None)`; a table that lacks one of its
/// parts gives the error that names the part.
pub fn get_percentile_rankings(page_text: &str) -> (r: Result<Option<PercentileRankings>, PageError>)
    ensures
        match r {
            Ok(Some(x)) => Ok(Some(x@)),
            Ok(None) => Ok(None),
            Err(e) => Err(e),
        } == page_rankings(page_of(page_text@)),
{
    let page = parse_document(page_text);
    let table = match select_first(&page, "table[id=percentileRankings]") {
        None => {
            return Ok(None);
        },
        Some(t) => t,
    };
    let name_box = select_first(&page, "div[class=\"bio-player-name\"]");
    match read_table(table, name_box) {
        Ok(t) => Ok(Some(rank(t))),
        Err(e) => Err(e),
    }
}

/// The marker put on both sides of a statistic's name: three stars from the
/// 95th percentile on, two from the 90th, none below.
pub open spec fn emphasis(percentile: u16) -> Seq<char> {
    if percentile >= 95 {
        "***"@
    } else if percentile >= 90 {
        "**"@
    } else {
        Seq::empty()
    }
}

/// The number of filled characters in the bar of a percentile: its share of
/// 15, rounded to the nearest whole.
pub open spec fn bar_fill(percentile: u16) -> nat {
    ((percentile * 15 + 50) / 100) as nat
}

/// The bar of a percentile of at most 100 is fifteen characters wide, and the
/// bar of a higher percentile is filled no less.
pub proof fn lemma_bar_width(low: u16, high: u16)
    requires
        low <= high,
    ensures
        bar_fill(low) <= bar_fill(high),
        high <= 100 ==> bar_fill(high) <= 15,
        high <= 100 ==> padded_right(repeated('-', bar_fill(high)), 15).len() == 15,
        bar_fill(0) == 0,
        bar_fill(100) == 15,
{
}

/// The line that shows one statistic; nothing where it is not ranked.
pub open spec fn ranking_line(name: Seq<char>, ranking: Option<u16>) -> Seq<char> {
    match ranking {
        None => Seq::empty(),
        Some(p) => "\n`"@ + padded_left(decimal(p as nat), 3) + "% / ["@ + padded_right(
            repeated('-', bar_fill(p)),
            15,
        ) + "]` "@ + emphasis(p) + name + emphasis(p),
    }
}

/// Appends the line that shows one statistic to `out`.
pub fn push_ranking_line(out: &mut String, name: &str, ranking: Option<u16>)
    ensures
        final(out)@ == old(out)@ + ranking_line(name@, ranking),
{
    match ranking {
        None => {
            assert(out@ =~= old(out)@ + ranking_line(name@, ranking));
        },
        Some(p) => {
            out.append("\n`");
            let digits = decimal_string(p as u64);
            push_padded_left(out, digits.as_str(), 3);
            out.append("% / [");
            let fill: usize = (p as usize * 15 + 50) / 100;
            let mut bar = String::new();
            push_repeated(&mut bar, '-', fill);
            assert(bar@ =~= repeated('-', bar_fill(p)));
            push_padded_right(out, bar.as_str(), 15);
            out.append("]` ");
            if p >= 95 {
                out.append("***");
                out.append(name);
                out.append("***");
            } else if p >= 90 {
                out.append("**");
                out.append(name);
                out.append("**");
            } else {
                out.append(name);
            }
            assert(out@ =~= old(out)@ + ranking_line(name@, ranking));
        },
    }
}

/// Renders one statistic: a line break, the percentile in three columns, a
/// bar of fifteen and the name, marked where the percentile is high. A
/// statistic that is not ranked renders as nothing.
pub fn format_percentile_ranking(name: &str, ranking: Option<u16>) -> (r: String)
    ensures
        r@ == ranking_line(name@, ranking),
{
    let mut out = String::new();
    push_ranking_line(&mut out, name, ranking);
    assert(out@ =~= ranking_line(name@, ranking));
    out
}

/// The batting section.
pub open spec fn batting_section(p: Percentiles) -> Seq<char> {
    ":cricket_game: Batting"@ + ranking_line("xwOBA"@, p.xwoba) + ranking_line("xBA"@, p.xba)
        + ranking_line("xSLG"@, p.xslg) + ranking_line("Avg EV"@, p.avg_ev) + ranking_line(
        "Bat Speed"@,
        p.bat_speed,
    ) + ranking_line("Barrel %"@, p.barrel_pct) + ranking_line("Hard-Hit %"@, p.hard_hit_pct)
        + ranking_line("Chase %"@, p.chase_pct) + ranking_line("Whiff %"@, p.whiff_pct)
        + ranking_line("K %"@, p.k_pct) + ranking_line("BB %"@, p.bb_pct)
}

/// The fielding section.
pub open spec fn fielding_section(p: Percentiles) -> Seq<char> {
    "\n:gloves: Fielding"@ + ranking_line("Range (OAA)"@, p.oaa) + ranking_line(
        "Arm Strength"@,
        p.arm_strength,
    )
}

/// The baserunning section.
pub open spec fn running_section(p: Percentiles) -> Seq<char> {
    "\n:athletic_shoe: Baserunning"@ + ranking_line("Sprint Speed"@, p.speed)
}

/// The pitching section.
pub open spec fn pitching_section(p: Percentiles) -> Seq<char> {
    ":baseball: Pitching"@ + ranking_line("xERA"@, p.xera) + ranking_line("xBA"@, p.xba)
        + ranking_line("Fastball Velo"@, p.fb_velo) + ranking_line("Avg EV"@, p.avg_ev)
        + ranking_line("Chase %"@, p.chase_pct) + ranking_line("Whiff %"@, p.whiff_pct)
        + ranking_line("K %"@, p.k_pct) + ranking_line("BB %"@, p.bb_pct) + ranking_line(
        "Barrel %"@,
        p.barrel_pct,
    ) + ranking_line("Hard-Hit %"@, p.hard_hit_pct) + ranking_line("Extension"@, p.extension)
}

/// `section` where `role` holds, nothing where it does not.
pub open spec fn section_if(role: bool, section: Seq<char>) -> Seq<char> {
    if role {
        section
    } else {
        Seq::empty()
    }
}

/// The body of the message: the sections of the roles that the player has,
/// batting, fielding, baserunning, pitching, in that order.
pub open spec fn rankings_description(p: Percentiles) -> Seq<char> {
    section_if(p.is_hitter(), batting_section(p)) + section_if(p.is_fielder(), fielding_section(p))
        + section_if(p.is_runner(), running_section(p)) + section_if(
        p.is_pitcher(),
        pitching_section(p),
    )
}

fn push_batting(out: &mut String, p: &Percentiles)
    ensures
        final(out)@ == old(out)@ + batting_section(*p),
{
    out.append(":cricket_game: Batting");
    push_ranking_line(out, "xwOBA", p.xwoba);
    push_ranking_line(out, "xBA", p.xba);
    push_ranking_line(out, "xSLG", p.xslg);
    push_ranking_line(out, "Avg EV", p.avg_ev);
    push_ranking_line(out, "Bat Speed", p.bat_speed);
    push_ranking_line(out, "Barrel %", p.barrel_pct);
    push_ranking_line(out, "Hard-Hit %", p.hard_hit_pct);
    push_ranking_line(out, "Chase %", p.chase_pct);
    push_ranking_line(out, "Whiff %", p.whiff_pct);
    push_ranking_line(out, "K %", p.k_pct);
    push_ranking_line(out, "BB %", p.bb_pct);
    assert(out@ =~= old(out)@ + batting_section(*p));
}

fn push_fielding(out: &mut String, p: &Percentiles)
    ensures
        final(out)@ == old(out)@ + fielding_section(*p),
{
    out.append("\n:gloves: Fielding");
    push_ranking_line(out, "Range (OAA)", p.oaa);
    push_ranking_line(out, "Arm Strength", p.arm_strength);
    assert(out@ =~= old(out)@ + fielding_section(*p));
}

fn push_running(out: &mut String, p: &Percentiles)
    ensures
        final(out)@ == old(out)@ + running_section(*p),
{
    out.append("\n:athletic_shoe: Baserunning");
    push_ranking_line(out, "Sprint Speed", p.speed);
    assert(out@ =~= old(out)@ + running_section(*p));
}

fn push_pitching(out: &mut String, p: &Percentiles)
    ensures
        final(out)@ == old(out)@ + pitching_section(*p),
{
    out.append(":baseball: Pitching");
    push_ranking_line(out, "xERA", p.xera);
    push_ranking_line(out, "xBA", p.xba);
    push_ranking_line(out, "Fastball Velo", p.fb_velo);
    push_ranking_line(out, "Avg EV", p.avg_ev);
    push_ranking_line(out, "Chase %", p.chase_pct);
    push_ranking_line(out, "Whiff %", p.whiff_pct);
    push_ranking_line(out, "K %", p.k_pct);
    push_ranking_line(out, "BB %", p.bb_pct);
    push_ranking_line(out, "Barrel %", p.barrel_pct);
    push_ranking_line(out, "Hard-Hit %", p.hard_hit_pct);
    push_ranking_line(out, "Extension", p.extension);
    assert(out@ =~= old(out)@ + pitching_section(*p));
}

/// Renders the body of the message for a record.
pub fn describe_rankings(rankings: &PercentileRankings) -> (r: String)
    ensures
        r@ == rankings_description(rankings.stats),
{
    let mut out = String::new();
    if rankings.hitter() {
        push_batting(&mut out, &rankings.stats);
    }
    if rankings.fielder() {
        push_fielding(&mut out, &rankings.stats);
    }
    if rankings.runner() {
        push_running(&mut out, &rankings.stats);
    }
    if rankings.pitcher() {
        push_pitching(&mut out, &rankings.stats);
    }
    assert(out@ =~= rankings_description(rankings.stats));
    out
}

/// The address of the portrait of player `player`.
pub open spec fn portrait_url(player: u64) -> Seq<char> {
    "https://content.mlb.com/images/headshots/current/60x60/"@ + decimal(player as nat)
        + "@3x.png"@
}

/// The message that shows the rankings `r` of player `player`: name and
/// season in the title, the portrait, the sections in the body, no fields.
pub open spec fn rankings_embed(player: u64, r: PercentileRankingsView) -> EmbedView {
    EmbedView {
        title: r.name + " ("@ + decimal(r.year as nat) + ")"@,
        description: Some(rankings_description(r.stats)),
        thumbnail: Some(portrait_url(player)),
        fields: Seq::empty(),
    }
}

/// Builds the message that shows the rankings of player `player`.
pub fn show_rankings(player: u64, rankings: &PercentileRankings) -> (r: Embed)
    ensures
        r@ == rankings_embed(player, rankings@),
{
    let mut title = String::new();
    title.append(rankings.name.as_str());
    title.append(" (");
    push_decimal(&mut title, rankings.year as u64);
    title.append(")");
    assert(title@ =~= rankings@.name + " ("@ + decimal(rankings.year as nat) + ")"@);
    let mut url = String::new();
    url.append("https://content.mlb.com/images/headshots/current/60x60/");
    push_decimal(&mut url, player);
    url.append("@3x.png");
    assert(url@ =~= portrait_url(player));
    let r = Embed {
        title,
        description: Some(describe_rankings(rankings)),
        thumbnail: Some(url),
        fields: Vec::new(),
    };
    assert(r@.fields =~= Seq::empty());
    r
}

} // verus!
