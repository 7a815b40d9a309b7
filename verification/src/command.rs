//! The commands of the bot: which one a message is, what the player command
//! refers to, and the help message.

use crate::game::Handler;
use crate::json::items_of;
use crate::json::member;
use crate::json::text_of;
use crate::json::Document;
use crate::json::Json;
use crate::message::field;
use crate::message::Embed;
use crate::message::EmbedView;
use crate::message::Field;
use crate::message::FieldView;
use crate::html::page_of;
use crate::percentile::get_percentile_rankings;
use crate::percentile::page_rankings;
use crate::percentile::rankings_embed;
use crate::percentile::show_rankings;
use crate::percentile::strings;
use crate::percentile::PageError;
use crate::text::decimal;
use crate::text::parse_unsigned;
use crate::text::push_decimal;
use crate::text::same;
use crate::text::starts_with;
use crate::text::strip_prefix;
use crate::text::unsigned_value;
use crate::text::without_prefix;
use vstd::prelude::*;
use vstd::string::StringExecFns;

verus! {

/// The commands.
#[derive(Clone, Copy, PartialEq, Eq, Structural, Debug)]
pub enum Command {
    /// Show the last batted ball of the current game.
    ExitVelocity,
    /// Show standings.
    Standings,
    /// Show the percentile rankings of a player.
    Savant,
    /// Show the help message.
    Help,
    /// The message is no command.
    Nothing,
}

/// The command that a message is. A message is judged by how it begins, the
/// help command by the whole of it; of two commands that fit, the one named
/// first here is chosen.
pub open spec fn command_of(content: Seq<char>) -> Command {
    if "~ev"@.is_prefix_of(content) {
        Command::ExitVelocity
    } else if "~st"@.is_prefix_of(content) || "~standings"@.is_prefix_of(content)
        || "~wc"@.is_prefix_of(content) || "~wildcard"@.is_prefix_of(content) {
        Command::Standings
    } else if "~sav"@.is_prefix_of(content) || "~savant"@.is_prefix_of(content) {
        Command::Savant
    } else if content == "~h"@ || content == "~help"@ {
        Command::Help
    } else {
        Command::Nothing
    }
}

/// The player that a player command refers to.
#[derive(Clone, Debug, PartialEq, Eq)]
pub enum PlayerReference {
    /// The player with this identifier.
    Id(u64),
    /// The player that a search for this name finds first.
    Name(String),
    /// The message has no argument.
    Missing,
}

/// What a [`PlayerReference`] holds.
pub enum PlayerReferenceView {
    Id(u64),
    Name(Seq<char>),
    Missing,
}

impl View for PlayerReference {
    type V = PlayerReferenceView;

    open spec fn view(&self) -> PlayerReferenceView {
        match self {
            PlayerReference::Id(id) => PlayerReferenceView::Id(*id),
            PlayerReference::Name(name) => PlayerReferenceView::Name(name@),
            PlayerReference::Missing => PlayerReferenceView::Missing,
        }
    }
}

/// The argument of a player command: what follows `~savant ` or, where the
/// message does not begin so, what follows `~sav `.
pub open spec fn savant_argument(content: Seq<char>) -> Option<Seq<char>> {
    match without_prefix(content, "~savant "@) {
        Some(rest) => Some(rest),
        None => without_prefix(content, "~sav "@),
    }
}

/// The player that the message refers to: an argument that is a whole number
/// is an identifier, any other argument is a name.
pub open spec fn player_reference(content: Seq<char>) -> PlayerReferenceView {
    match savant_argument(content) {
        None => PlayerReferenceView::Missing,
        Some(rest) => match unsigned_value(rest, usize::MAX as nat) {
            Some(id) => PlayerReferenceView::Id(id as u64),
            None => PlayerReferenceView::Name(rest),
        },
    }
}

/// Reads which player the message refers to.
pub fn read_player_reference(content: &str) -> (r: PlayerReference)
    ensures
        r@ == player_reference(content@),
{
    let rest = match strip_prefix(content, "~savant ") {
        Some(rest) => rest,
        None => match strip_prefix(content, "~sav ") {
            Some(rest) => rest,
            None => {
                return PlayerReference::Missing;
            },
        },
    };
    match parse_unsigned(rest.as_str(), usize::MAX as u64) {
        Some(id) => PlayerReference::Id(id),
        None => PlayerReference::Name(rest),
    }
}

/// The address of the search for players named `name`.
pub open spec fn search_address(name: Seq<char>) -> Seq<char> {
    "https://baseballsavant.mlb.com/player/search-all?search="@ + name
}

/// The address of the page of player `player`.
pub open spec fn page_address(player: u64) -> Seq<char> {
    "https://baseballsavant.mlb.com/savant-player/"@ + decimal(player as nat)
        + "?stats=statcast-r-hitting-mlb"@
}

/// The address of the search for players named `name`.
pub fn search_url(name: &str) -> (r: String)
    ensures
        r@ == search_address(name@),
{
    let mut out = String::new();
    out.append("https://baseballsavant.mlb.com/player/search-all?search=");
    out.append(name);
    assert(out@ =~= search_address(name@));
    out
}

/// The address of the page of player `player`.
pub fn page_url(player: u64) -> (r: String)
    ensures
        r@ == page_address(player),
{
    let mut out = String::new();
    out.append("https://baseballsavant.mlb.com/savant-player/");
    push_decimal(&mut out, player);
    out.append("?stats=statcast-r-hitting-mlb");
    assert(out@ =~= page_address(player));
    out
}

/// The player that a search found first: the identifier of the first
/// element of the result list, where that is a string that holds a whole
/// number.
pub open spec fn first_found(result: Json) -> Option<u64> {
    match result.as_array() {
        Some(found) => if found.len() > 0 {
            match found[0].at("id"@).as_str() {
                Some(id) => match unsigned_value(id, usize::MAX as nat) {
                    Some(n) => Some(n as u64),
                    None => None,
                },
                None => None,
            }
        } else {
            None
        },
        None => None,
    }
}

/// Reads the player that a search found first.
pub fn read_first_found(result: &Document) -> (r: Option<u64>)
    ensures
        r == first_found(result@),
{
    let found = match items_of(result.root()) {
        Some(f) => f,
        None => {
            return None;
        },
    };
    if found.len() == 0 {
        return None;
    }
    match text_of(member(Some(&found[0]), "id")) {
        Some(id) => parse_unsigned(id.as_str(), usize::MAX as u64),
        None => None,
    }
}

/// What is said where a player command refers to no player.
pub open spec fn no_match_text() -> Seq<char> {
    "No player ID or name matched the given argument"@
}

/// What is said where a player command refers to no player.
pub fn no_match_message() -> (r: String)
    ensures
        r@ == no_match_text(),
{
    "No player ID or name matched the given argument".to_owned()
}

/// The help message.
pub open spec fn help_embed() -> EmbedView {
    EmbedView {
        title: "Bunt Commands"@,
        description: None,
        thumbnail: None,
        fields: seq![
            FieldView {
                name: "~ev"@,
                value: "Gets the statcast data from the most recent ball put in play in the active braves game."@,
                inline: false,
            },
            FieldView {
                name: "~st / ~standings"@,
                value: "Gets the standings in the NL East (specify AL, West/Central, and even WC) to get other stats"@,
                inline: false,
            },
            FieldView {
                name: "~savant / ~sav"@,
                value: "Gets the baseball savant percentile rankings data of the most likely specified player"@,
                inline: false,
            },
        ],
    }
}

/// The answer to a player command.
#[derive(Clone, Debug, PartialEq, Eq)]
pub struct SavantAnswer {
    /// The message to send.
    pub message: Embed,
    /// The labels of the rankings table that name no known column, for a
    /// log.
    pub unrecognized: Vec<String>,
}

/// What a [`SavantAnswer`] holds.
pub struct SavantAnswerView {
    pub message: EmbedView,
    pub unrecognized: Seq<Seq<char>>,
}

impl View for SavantAnswer {
    type V = SavantAnswerView;

    open spec fn view(&self) -> SavantAnswerView {
        SavantAnswerView { message: self.message@, unrecognized: strings(self.unrecognized@) }
    }
}

/// The answer to a player command for player `player`, given the page of
/// the player: nothing where the page has no rankings table.
pub open spec fn savant_reply(player: u64, page: Seq<char>) -> Result<
    Option<SavantAnswerView>,
    PageError,
> {
    match page_rankings(page_of(page)) {
        Ok(Some(rankings)) => Ok(
            Some(
                SavantAnswerView {
                    message: rankings_embed(player, rankings),
                    unrecognized: rankings.unrecognized,
                },
            ),
        ),
        Ok(None) => Ok(None),
        Err(e) => Err(e),
    }
}

impl Handler {
    /// Tells which command the message `content` is.
    pub fn on_message(&self, content: &str) -> (r: Command)
        ensures
            r == command_of(content@),
    {
        if starts_with(content, "~ev") {
            Command::ExitVelocity
        } else if starts_with(content, "~st") || starts_with(content, "~standings") || starts_with(
            content,
            "~wc",
        ) || starts_with(content, "~wildcard") {
            Command::Standings
        } else if starts_with(content, "~sav") || starts_with(content, "~savant") {
            Command::Savant
        } else if same(content, "~h") || same(content, "~help") {
            Command::Help
        } else {
            Command::Nothing
        }
    }

    /// Answers a player command for player `player` from the text of the
    /// player's page.
    pub fn savant(&self, player: u64, page: &str) -> (r: Result<Option<SavantAnswer>, PageError>)
        ensures
            match r {
                Ok(Some(a)) => Ok(Some(a@)),
                Ok(None) => Ok(None),
                Err(e) => Err(e),
            } == savant_reply(player, page@),
    {
        match get_percentile_rankings(page) {
            Ok(Some(rankings)) => {
                let message = show_rankings(player, &rankings);
                Ok(Some(SavantAnswer { message, unrecognized: rankings.unrecognized }))
            },
            Ok(None) => Ok(None),
            Err(e) => Err(e),
        }
    }

    /// Builds the help message.
    pub fn help(&self) -> (r: Embed)
        ensures
            r@ == help_embed(),
    {
        let mut fields: Vec<Field> = Vec::new();
        fields.push(
            field(
                "~ev",
                "Gets the statcast data from the most recent ball put in play in the active braves game.".to_owned(),
                false,
            ),
        );
        fields.push(
            field(
                "~st / ~standings",
                "Gets the standings in the NL East (specify AL, West/Central, and even WC) to get other stats".to_owned(),
                false,
            ),
        );
        fields.push(
            field(
                "~savant / ~sav",
                "Gets the baseball savant percentile rankings data of the most likely specified player".to_owned(),
                false,
            ),
        );
        let e = Embed { title: "Bunt Commands".to_owned(), description: None, thumbnail: None, fields };
        assert(e@.fields =~= help_embed().fields);
        e
    }
}

} // verus!
