//! Decisions on gateway events: joining and leaving servers, the purge at
//! login, which messages are listened to, and the replies to messages.

use vstd::prelude::*;
use crate::embed::{Embed, EmbedView, EmbedFieldView, rgb, info_color};
use crate::roles::contains_id;
use crate::templates::status::{status_view, info};
use crate::text::{concat, decimal};

verus! {

/// Whether a `GuildCreate` event may announce a new server: only when the
/// gateway marks it as new.
pub fn marked_new(is_new: Option<bool>) -> (res: bool)
    ensures
        res == (is_new == Some(true)),
{
    match is_new {
        Some(v) => v,
        None => false,
    }
}

/// Whether a `GuildDelete` event means the bot left the server: the server
/// is not merely unavailable.
pub fn left_server(unavailable: bool) -> (res: bool)
    ensures
        res == !unavailable,
{
    !unavailable
}

/// What to do with a server listed at login.
#[derive(PartialEq, Eq, Structural, Clone, Copy)]
pub enum GuildAction {
    /// Remove the server from the database.
    Leave(u64),
    /// Add the server to the database.
    Join(u64),
    /// Nothing to do.
    Nothing,
}

/// A server listed at login: its id and whether it is unavailable.
#[derive(Clone, Copy)]
pub struct ListedGuild {
    pub id: u64,
    pub unavailable: bool,
}

/// The action for one listed server: one that is available was removed while
/// the bot was offline; one that is unavailable but unknown to the database
/// was joined while offline.
pub open spec fn ready_action_spec(g: ListedGuild, known: Seq<u64>) -> GuildAction {
    if !g.unavailable {
        GuildAction::Leave(g.id)
    } else if !known.contains(g.id) {
        GuildAction::Join(g.id)
    } else {
        GuildAction::Nothing
    }
}

/// The actions of the purge at login, one per listed server, in order.
pub fn ready_actions(guilds: &Vec<ListedGuild>, known: &Vec<u64>) -> (res: Vec<GuildAction>)
    ensures
        res@ == guilds@.map_values(|g: ListedGuild| ready_action_spec(g, known@)),
{
    let mut res: Vec<GuildAction> = Vec::new();
    let mut i: usize = 0;
    while i < guilds.len()
        invariant
            i <= guilds@.len(),
            res@ =~= guilds@.map_values(|g: ListedGuild| ready_action_spec(g, known@)).take(i as int),
        decreases guilds@.len() - i,
    {
        let g = guilds[i];
        let a = if !g.unavailable {
            GuildAction::Leave(g.id)
        } else if !contains_id(known, g.id) {
            GuildAction::Join(g.id)
        } else {
            GuildAction::Nothing
        };
        res.push(a);
        i = i + 1;
    }
    assert(guilds@.map_values(|g: ListedGuild| ready_action_spec(g, known@)).take(i as int) =~= guilds@.map_values(
        |g: ListedGuild| ready_action_spec(g, known@),
    ));
    res
}

/// The servers stored in the database that are missing from the login
/// list, in database order: they were left while the bot was offline.
pub fn purge_list(stored: &Vec<u64>, listed: &Vec<u64>) -> (res: Vec<u64>)
    ensures
        res@ == stored@.filter(|id: u64| !listed@.contains(id)),
{
    let mut res: Vec<u64> = Vec::new();
    let mut i: usize = 0;
    let ghost pred = |id: u64| !listed@.contains(id);
    assert(stored@.take(0).filter(pred) =~= Seq::<u64>::empty()) by {
        reveal_with_fuel(Seq::<_>::filter, 1);
    }
    while i < stored.len()
        invariant
            i <= stored@.len(),
            pred == (|id: u64| !listed@.contains(id)),
            res@ == stored@.take(i as int).filter(pred),
        decreases stored@.len() - i,
    {
        proof {
            reveal_with_fuel(Seq::<_>::filter, 1);
        }
        assert(stored@.take(i + 1).drop_last() =~= stored@.take(i as int));
        assert(stored@.take(i + 1).last() == stored@[i as int]);
        let id = stored[i];
        if !contains_id(listed, id) {
            res.push(id);
        }
        i = i + 1;
    }
    assert(stored@.take(i as int) =~= stored@);
    res
}

/// Whether a message is handed to the message handler: it is not the bot's
/// own and the server listens to messages.
pub fn listens_to(author: u64, bot: u64, messages_enabled: bool) -> (res: bool)
    ensures
        res == (author != bot && messages_enabled),
{
    author != bot && messages_enabled
}

/// The one-time greeting sent to a server that has just added the bot.
pub open spec fn welcome_view(repository: Seq<char>) -> EmbedView {
    EmbedView {
        footer: Some("This is a one time message and should not be sent again."@),
        fields: seq![
            EmbedFieldView {
                name: "Privacy"@,
                value: "In order to save per-server settings a database is used to store data based on its id number. If you have concerns the full implementation is viewable [here]("@
                    + repository + ")."@,
                inline: true,
            },
        ],
        ..status_view(
            ":information_source:"@,
            "Hello I'm AbbyBot"@,
            "In order to use any non-global commands `/setup bot` now. The full list of commands and their details can be found by running `/help`."@,
            rgb(102, 51, 102),
        )
    }
}

/// Builds the greeting for a new server; `repository` is where the source
/// code can be read.
pub fn welcome_embed(repository: &str) -> (res: Embed)
    ensures
        res@ == welcome_view(repository@),
{
    let a = concat(
        "In order to save per-server settings a database is used to store data based on its id number. If you have concerns the full implementation is viewable [here](",
        repository,
    );
    let privacy = concat(a.as_str(), ").");
    info(
        Some("Hello I'm AbbyBot"),
        String::from_str(
            "In order to use any non-global commands `/setup bot` now. The full list of commands and their details can be found by running `/help`.",
        ),
    ).field(String::from_str("Privacy"), privacy, true).footer(
        String::from_str("This is a one time message and should not be sent again."),
    )
}

/// What `Regex::new(pattern)` and then `is_match(text)` give: whether the
/// pattern, once compiled, matches somewhere in the text; `None` when the
/// pattern does not compile.
pub uninterp spec fn regex_match_of(pattern: Seq<char>, text: Seq<char>) -> Option<bool>;

/// Whether `c` is an ASCII character outside the word characters
/// `[0-9A-Za-z_]`: a space or punctuation, across which a word ends.
pub open spec fn ascii_non_word(c: char) -> bool {
    (c as u32) < 128 && !('0' <= c <= '9' || 'A' <= c <= 'Z' || 'a' <= c <= 'z' || c == '_')
}

/// Whether a word of the text ends in "vore" (any case of each letter) at
/// position `i`: the four letters start at `i`, and the text ends there or
/// goes on with a space or an ASCII punctuation mark.
pub open spec fn vore_word_at(text: Seq<char>, i: int) -> bool {
    &&& 0 <= i
    &&& i + 4 <= text.len()
    &&& (text[i] == 'v' || text[i] == 'V')
    &&& (text[i + 1] == 'o' || text[i + 1] == 'O')
    &&& (text[i + 2] == 'r' || text[i + 2] == 'R')
    &&& (text[i + 3] == 'e' || text[i + 3] == 'E')
    &&& (i + 4 == text.len() || ascii_non_word(text[i + 4]))
}

/// Whether some word of the text ends in "vore".
pub open spec fn has_vore_word(text: Seq<char>) -> bool {
    exists|i: int| vore_word_at(text, i)
}

/// Compiles a regular expression and tests it against a text. Of the two
/// patterns of the message replies the contract also states that they
/// compile, and that the "vore" pattern, `\S*` then `vore` in any case
/// then a word boundary, matches a text with a word ending in "vore"
/// followed by the end of the text or an ASCII non-word character (the
/// match then starts at the `v`, as `\S*` may be empty, and the boundary
/// lies between the word character `e` and what follows). What the
/// patterns match otherwise is left to the name [regex_match_of].
#[verifier::external_body]
pub(crate) fn regex_matches(pattern: &str, text: &str) -> (res: Option<bool>)
    ensures
        res == regex_match_of(pattern@, text@),
        res is None ==> pattern@ != "(?i)\\S*vore\\b"@ && pattern@ != "(?i)\\S*b[ou]rger\\b"@,
        res matches Some(m) ==> ((pattern@ == "(?i)\\S*vore\\b"@ && has_vore_word(text@)) ==> m),
{
    match regex::Regex::new(pattern) {
        Ok(re) => Some(re.is_match(text)),
        Err(_) => None,
    }
}

/// What `OffsetDateTime::from_unix_timestamp(seconds)`, moved to a UTC
/// offset of `hours` and formatted with the format description
/// `description`, writes; `None` when a step fails (an invalid
/// description, offset or timestamp, or a moved instant outside the range
/// of the time library).
pub uninterp spec fn clock_text_of(seconds: int, hours: int, description: Seq<char>) -> Option<Seq<char>>;

/// A minute or second of a clock: two digits, zero padded.
pub open spec fn two_digits(n: int) -> Seq<char> {
    if n < 10 {
        "0"@ + decimal(n as nat)
    } else {
        decimal(n as nat)
    }
}

/// The 12-hour clock reading `h:mm AM` or `h:mm PM` at `local_seconds`
/// seconds after the epoch of the local time scale: the hour from 1 to 12
/// without padding, the minute on two digits.
pub open spec fn twelve_hour_clock(local_seconds: int) -> Seq<char> {
    let of_day = local_seconds % 86400;
    let hour = of_day / 3600;
    let minute = (of_day % 3600) / 60;
    decimal(((hour + 11) % 12 + 1) as nat) + ":"@ + two_digits(minute) + " "@ + (if hour < 12 {
        "AM"@
    } else {
        "PM"@
    })
}

/// The last second the time library can represent (9999-12-31 23:59:59).
pub open spec fn last_clock_second() -> int {
    253402300799
}

/// Formats the instant `unix_seconds` at a whole-hour UTC offset. The
/// result is named by [clock_text_of]; for the Borger format at UTC-5 and
/// an instant from 1970 to the end of year 9999, the contract states the
/// text: the 12-hour clock of the instant moved back five hours.
#[verifier::external_body]
pub(crate) fn format_clock(unix_seconds: i64, offset_hours: i8, description: &str) -> (res: Option<String>)
    ensures
        res matches Some(s) ==> clock_text_of(unix_seconds as int, offset_hours as int, description@) == Some(s@),
        res is None ==> clock_text_of(unix_seconds as int, offset_hours as int, description@) is None,
        res is None ==> !(description@ == borger_clock_format() && offset_hours == -5 && 0 <= unix_seconds
            <= last_clock_second()),
        res matches Some(s) ==> ((description@ == borger_clock_format() && offset_hours == -5 && 0 <= unix_seconds
            <= last_clock_second()) ==> s@ == twelve_hour_clock(unix_seconds - 18000)),
{
    #[allow(deprecated)]
    let items = time::format_description::parse(description).ok()?;
    let offset = time::UtcOffset::from_hms(offset_hours, 0, 0).ok()?;
    let instant = time::OffsetDateTime::from_unix_timestamp(unix_seconds).ok()?;
    instant.checked_to_offset(offset)?.format(&items).ok()
}

/// The pattern that makes the bot tell the time in Borger, Texas.
pub open spec fn borger_pattern() -> Seq<char> {
    "(?i)\\S*b[ou]rger\\b"@
}

/// The pattern of the other meme reply.
pub open spec fn vore_pattern() -> Seq<char> {
    "(?i)\\S*vore\\b"@
}

/// The 12-hour clock format of the Borger reply.
pub open spec fn borger_clock_format() -> Seq<char> {
    "[hour repr:12 padding:none]:[minute] [period case:upper]"@
}

/// Why a message could not be answered.
#[derive(Debug)]
pub enum MessageError {
    /// A reply pattern did not compile.
    Pattern,
    /// The time could not be formatted.
    Clock,
}

/// The replies to a message, in order: in servers that are not serious, a
/// message mentioning a "borger" gets the time in Borger, Texas (UTC-5),
/// and one ending a word in "vore" gets a picture.
pub open spec fn replies_spec(serious: bool, content: Seq<char>, now: int) -> Result<Seq<Seq<char>>, ()> {
    if serious {
        Ok(Seq::empty())
    } else {
        match (regex_match_of(borger_pattern(), content), regex_match_of(vore_pattern(), content)) {
            (Some(b), Some(v)) => {
                let clock = clock_text_of(now, -5, borger_clock_format());
                if b && clock is None {
                    Err(())
                } else {
                    Ok((if b {
                        seq!["It is now "@ + clock.unwrap() + " in Borger, Texas."@]
                    } else {
                        Seq::<Seq<char>>::empty()
                    }) + (if v {
                        seq!["https://i.imgur.com/59urJXr.png"@]
                    } else {
                        Seq::<Seq<char>>::empty()
                    }))
                }
            },
            _ => Err(()),
        }
    }
}

/// Law of the picture reply: in a server that is not serious, a message
/// that the "vore" pattern matches gets the picture as its last reply,
/// whatever the time and whatever else the message says.
pub proof fn lemma_vore_match_gets_picture(content: Seq<char>, now: int)
    requires
        regex_match_of("(?i)\\S*vore\\b"@, content) == Some(true),
    ensures
        replies_spec(false, content, now) matches Ok(v) ==> (v.len() >= 1 && v.last()
            == "https://i.imgur.com/59urJXr.png"@),
{
}

/// The replies to a message at the time `now_unix_seconds`.
pub fn handler(serious: bool, content: &str, now_unix_seconds: i64) -> (res: Result<Vec<String>, MessageError>)
    ensures
        res matches Ok(v) ==> replies_spec(serious, content@, now_unix_seconds as int) == Ok::<Seq<Seq<char>>, ()>(
            v.deep_view(),
        ),
        res is Err ==> replies_spec(serious, content@, now_unix_seconds as int) is Err,
        (0 <= now_unix_seconds <= last_clock_second() && regex_match_of(borger_pattern(), content@) is Some
            && regex_match_of(vore_pattern(), content@) is Some) ==> res is Ok,
        0 <= now_unix_seconds <= last_clock_second() ==> res is Ok,
        (!serious && has_vore_word(content@)) ==> (res matches Ok(v) ==> (v@.len() >= 1 && v@.last()@
            == "https://i.imgur.com/59urJXr.png"@)),
        (!serious && 0 <= now_unix_seconds <= last_clock_second() && regex_match_of(borger_pattern(), content@)
            == Some(true)) ==> (res matches Ok(v) ==> (v@.len() >= 1 && v@[0]@ == "It is now "@ + twelve_hour_clock(
            now_unix_seconds - 18000,
        ) + " in Borger, Texas."@)),
{
    let mut replies: Vec<String> = Vec::new();
    if serious {
        assert(replies.deep_view() =~= Seq::<Seq<char>>::empty());
        return Ok(replies);
    }
    let b = match regex_matches("(?i)\\S*b[ou]rger\\b", content) {
        Some(b) => b,
        None => {
            return Err(MessageError::Pattern);
        },
    };
    if b {
        let clock = match format_clock(
            now_unix_seconds,
            -5,
            "[hour repr:12 padding:none]:[minute] [period case:upper]",
        ) {
            Some(c) => c,
            None => {
                return Err(MessageError::Clock);
            },
        };
        let a = concat("It is now ", clock.as_str());
        replies.push(concat(a.as_str(), " in Borger, Texas."));
    }
    let v = match regex_matches("(?i)\\S*vore\\b", content) {
        Some(v) => v,
        None => {
            return Err(MessageError::Pattern);
        },
    };
    if v {
        replies.push(String::from_str("https://i.imgur.com/59urJXr.png"));
    }
    proof {
        reveal_strlit("https://i.imgur.com/59urJXr.png");
    }
    assert(replies.deep_view() =~= replies_spec(serious, content@, now_unix_seconds as int).unwrap());
    Ok(replies)
}

} // verus!
