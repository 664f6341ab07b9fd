//! The errors the bot reports, and the text each of them shows.

use vstd::prelude::*;
use crate::embed::{Embed, EmbedView, Reply, ReplyView, rgb};
use crate::templates::status::{error, status_view, warning};
use crate::text::{concat, decimal, join, join_spec, to_ascii_uppercase, ascii_upper_seq, u64_to_decimal};

verus! {

/// What `format!("{:?}", s)` writes for a string: the string in double
/// quotes, with special characters escaped.
pub uninterp spec fn debug_quoted(s: Seq<char>) -> Seq<char>;

/// The `Debug` rendering of a string (`format!("{:?}", s)`).
#[verifier::external_body]
pub(crate) fn debug_str(s: &str) -> (res: String)
    ensures
        res@ == debug_quoted(s@),
{
    format!("{:?}", s)
}

/// The display names of the permissions set in `bits`, in the order
/// `Permissions::get_permission_names` lists them.
pub uninterp spec fn permission_names_of(bits: u64) -> Seq<Seq<char>>;

/// `Permissions::get_permission_names` of the permission set with these bits.
#[verifier::external_body]
pub(crate) fn permission_names(bits: u64) -> (res: Vec<String>)
    ensures
        res.deep_view() == permission_names_of(bits),
{
    serenity::model::Permissions::from_bits_truncate(bits).get_permission_names().into_iter().map(
        |n| n.to_string(),
    ).collect()
}

/// The permission names joined by `sep`, in ASCII upper case.
pub open spec fn upper_permission_list(bits: u64, sep: Seq<char>) -> Seq<char> {
    ascii_upper_seq(join_spec(permission_names_of(bits), sep))
}

/// Lists the names of a permission set joined by `sep`, in upper case.
pub fn permission_list_upper(bits: u64, sep: &str) -> (res: String)
    ensures
        res@ == upper_permission_list(bits, sep@),
{
    let names = permission_names(bits);
    let joined = join(&names, sep);
    to_ascii_uppercase(joined.as_str())
}

/// Failures that end a command or an interaction.
#[derive(Debug)]
pub enum BotError {
    /// An interaction with an unexpected kind arrived during a filtered wait.
    WrongInteraction,
    /// The user waited too long to answer an interaction prompt.
    InteractionTimedOut,
    /// Command or modal input could not be parsed.
    MalformedInput(String),
    /// The custom id of an interaction has the wrong shape.
    MalformedInteraction,
    /// Input could be parsed but does not name anything valid.
    InvalidInput(String),
    /// The two message links of `rewind` point into different channels.
    InputChannelMismatch,
    /// The bot cannot view or post in the channel.
    ChannelInaccessable,
    /// No channel is stored for role lists.
    RolesChannelUnset,
    /// Posting the role list of a group failed.
    RoleListFailed(String),
    /// The confirmation modal was not answered correctly.
    UnconfirmedModal,
    /// A role with the same name exists already.
    RoleAlreadyExists,
    /// The user lacks the permissions (given as bits) a component needs.
    InteractionMissingPermissions(u64),
    /// An interaction arrived outside of a server.
    InteractionNotInGuild,
    /// A user count was read before its computation finished.
    UserCountNotCalculated,
}

impl BotError {
    /// The text shown for each error.
    pub open spec fn message_spec(&self) -> Seq<char> {
        match self {
            BotError::WrongInteraction => "Somehow recieved wrong interaction ID during a filtered interaction wait."@,
            BotError::InteractionTimedOut => "Interaction timed out, please try again."@,
            BotError::MalformedInput(s) => "Malformed input "@ + debug_quoted(s@) + " is not parseable."@,
            BotError::MalformedInteraction => "The ID of the interaction is malformed somehow."@,
            BotError::InvalidInput(s) => "Input within argument "@ + debug_quoted(s@)
                + " is not malformed but is invalid. Please double check the command and try again."@,
            BotError::InputChannelMismatch => "Inputs are not in the same channel as each other, aborting."@,
            BotError::ChannelInaccessable => "Channel lacks permissions for viewing, posting or both. Either change the permission overrides or choose a different channel."@,
            BotError::RolesChannelUnset => "Roles channel is not set and for safety will not be infered. In order to use this command please set the channel with \"/setup roles\"."@,
            BotError::RoleListFailed(s) => "Failed to create role list for group "@ + debug_quoted(s@) + "."@,
            BotError::UnconfirmedModal => "Failed to confirm via confirmation modal, aborting."@,
            BotError::RoleAlreadyExists => "A role with an identical name already exists."@,
            BotError::InteractionMissingPermissions(bits) => "Missing required permissions for component: "@
                + upper_permission_list(*bits, ", "@),
            BotError::InteractionNotInGuild => "This interaction can only be created and used in a guild. If this is in a direct message somthing has gone wrong."@,
            BotError::UserCountNotCalculated => "The user count thread has somehow been called before it was calculated."@,
        }
    }

    /// The text shown for the error.
    pub fn message(&self) -> (res: String)
        ensures
            res@ == self.message_spec(),
    {
        match self {
            BotError::WrongInteraction => String::from_str(
                "Somehow recieved wrong interaction ID during a filtered interaction wait.",
            ),
            BotError::InteractionTimedOut => String::from_str("Interaction timed out, please try again."),
            BotError::MalformedInput(s) => {
                let q = debug_str(s.as_str());
                let a = concat("Malformed input ", q.as_str());
                concat(a.as_str(), " is not parseable.")
            },
            BotError::MalformedInteraction => String::from_str(
                "The ID of the interaction is malformed somehow.",
            ),
            BotError::InvalidInput(s) => {
                let q = debug_str(s.as_str());
                let a = concat("Input within argument ", q.as_str());
                concat(
                    a.as_str(),
                    " is not malformed but is invalid. Please double check the command and try again.",
                )
            },
            BotError::InputChannelMismatch => String::from_str(
                "Inputs are not in the same channel as each other, aborting.",
            ),
            BotError::ChannelInaccessable => String::from_str(
                "Channel lacks permissions for viewing, posting or both. Either change the permission overrides or choose a different channel.",
            ),
            BotError::RolesChannelUnset => String::from_str(
                "Roles channel is not set and for safety will not be infered. In order to use this command please set the channel with \"/setup roles\".",
            ),
            BotError::RoleListFailed(s) => {
                let q = debug_str(s.as_str());
                let a = concat("Failed to create role list for group ", q.as_str());
                concat(a.as_str(), ".")
            },
            BotError::UnconfirmedModal => String::from_str(
                "Failed to confirm via confirmation modal, aborting.",
            ),
            BotError::RoleAlreadyExists => String::from_str(
                "A role with an identical name already exists.",
            ),
            BotError::InteractionMissingPermissions(bits) => {
                let names = permission_list_upper(*bits, ", ");
                concat("Missing required permissions for component: ", names.as_str())
            },
            BotError::InteractionNotInGuild => String::from_str(
                "This interaction can only be created and used in a guild. If this is in a direct message somthing has gone wrong.",
            ),
            BotError::UserCountNotCalculated => String::from_str(
                "The user count thread has somehow been called before it was calculated.",
            ),
        }
    }
}

/// Failures while reading the configuration.
#[derive(Debug)]
pub enum ConfigError {
    /// The configuration file could not be read; `source` describes why.
    MissingFile { path: String, source: String },
    /// Neither a token nor a readable token file is configured.
    Token,
}

impl ConfigError {
    /// The text shown for each error.
    pub open spec fn message_spec(&self) -> Seq<char> {
        match self {
            ConfigError::MissingFile { path, .. } => "Could not read the configuration file "@ + path@,
            ConfigError::Token => "Either token or token_file could not be read."@,
        }
    }

    /// The text shown for the error.
    pub fn message(&self) -> (res: String)
        ensures
            res@ == self.message_spec(),
    {
        match self {
            ConfigError::MissingFile { path, .. } => concat(
                "Could not read the configuration file ",
                path.as_str(),
            ),
            ConfigError::Token => String::from_str("Either token or token_file could not be read."),
        }
    }
}


/// A permission list as `Permissions` displays it: the names separated by
/// commas, the last one joined by "and".
pub open spec fn and_list(names: Seq<Seq<char>>) -> Seq<char> {
    if names.len() <= 1 {
        join_spec(names, ", "@)
    } else {
        join_spec(names.drop_last(), ", "@) + " and "@ + names.last()
    }
}

/// The display text of a permission set.
pub open spec fn permissions_text(bits: u64) -> Seq<char> {
    and_list(permission_names_of(bits))
}

/// Writes a permission set as `Permissions` displays it.
pub fn permissions_display(bits: u64) -> (res: String)
    ensures
        res@ == permissions_text(bits),
{
    let names = permission_names(bits);
    let ghost dv = names.deep_view();
    let n = names.len();
    if n <= 1 {
        return join(&names, ", ");
    }
    let mut res = String::new();
    let mut i: usize = 0;
    while i < n - 1
        invariant
            n == dv.len(),
            dv == names.deep_view(),
            n > 1,
            i <= n - 1,
            res@ == join_spec(dv.take(i as int), ", "@),
        decreases n - 1 - i,
    {
        assert(dv.take(i + 1).drop_last() =~= dv.take(i as int));
        if i > 0 {
            res.append(", ");
        }
        res.append(names[i].as_str());
        i = i + 1;
    }
    assert(dv.take((n - 1) as int) =~= dv.drop_last());
    res.append(" and ");
    res.append(names[n - 1].as_str());
    res
}

/// Each name as a list item.
pub open spec fn bullets(names: Seq<Seq<char>>) -> Seq<Seq<char>> {
    names.map_values(|n: Seq<char>| "- "@ + n)
}

/// The names as list items, one per line.
pub fn bullet_list(names: &Vec<String>) -> (res: String)
    ensures
        res@ == join_spec(bullets(names.deep_view()), "\n"@),
{
    let mut items: Vec<String> = Vec::new();
    let mut i: usize = 0;
    while i < names.len()
        invariant
            i <= names.len(),
            items.deep_view() =~= bullets(names.deep_view().take(i as int)),
        decreases names.len() - i,
    {
        let item = concat("- ", names[i].as_str());
        let ghost before = items.deep_view();
        assert(names.deep_view().take(i + 1) =~= names.deep_view().take(i as int).push(names[i as int]@));
        items.push(item);
        assert(items.deep_view() =~= before.push(item@));
        i = i + 1;
    }
    assert(names.deep_view().take(names.len() as int) =~= names.deep_view());
    join(&items, "\n")
}

/// A failure reported by the command framework, with the plain values that
/// its reply shows. Failures that are only logged carry nothing.
pub enum FrameworkFailure {
    Setup,
    EventHandler,
    /// A command returned an error; `user_error` marks an error made by the
    /// invoker rather than by the bot.
    Command { user_error: bool, invocation: String, error: String },
    SubcommandRequired { invocation: String, subcommands: Vec<String> },
    CommandPanic,
    ArgumentParse { invocation: String, input: Option<String>, error: String },
    CommandStructureMismatch { command: String, description: String },
    CooldownHit { invocation: String, remaining_secs: u64 },
    MissingBotPermissions { invocation: String, permissions: u64 },
    MissingUserPermissions { invocation: String, missing: Option<u64> },
    NotAnOwner { invocation: String },
    GuildOnly { invocation: String },
    DmOnly { invocation: String },
    NsfwOnly { invocation: String },
    CommandCheckFailed { invocation: String, reason: Option<String> },
    DynamicPrefix,
    UnknownCommand,
    UnknownInteraction,
}

/// The footer of replies to mistakes that are probably the invoker's.
pub open spec fn user_footer() -> Seq<char> {
    "If you think this was an error with the bot, please contact the developer."@
}

/// The footer of replies to mistakes of the bot.
pub open spec fn bot_footer() -> Seq<char> {
    "This is undoubtedly an error with the bot, please contact the developer."@
}

/// Text followed by a fenced block.
pub open spec fn fenced(s: Seq<char>) -> Seq<char> {
    ":\n```\n"@ + s + "\n```"@
}

/// A warning embed with the default title.
pub open spec fn warn_view(description: Seq<char>) -> EmbedView {
    status_view(":warning:"@, "Warning"@, description, rgb(253, 253, 150))
}

/// An error embed with the default title.
pub open spec fn err_view(description: Seq<char>) -> EmbedView {
    status_view(":exclamation:"@, "Error"@, description, rgb(178, 34, 34))
}

/// An embed with a footer.
pub open spec fn footed(e: EmbedView, footer: Seq<char>) -> EmbedView {
    EmbedView { footer: Some(footer), ..e }
}

/// The description of an argument that failed to parse.
pub open spec fn parse_failure_text(invocation: Seq<char>, input: Option<String>) -> Seq<char> {
    match input {
        Some(s) => "Failed to parse "@ + debug_quoted(s@) + " from invocation of "@ + debug_quoted(invocation),
        None => "Failed to parse argument from invocation of "@ + debug_quoted(invocation),
    }
}

/// The embed sent for each framework failure, if one is sent.
pub open spec fn failure_embed(f: FrameworkFailure) -> Option<EmbedView> {
    match f {
        FrameworkFailure::Setup => None,
        FrameworkFailure::EventHandler => None,
        FrameworkFailure::Command { user_error, invocation, error } => if user_error {
            Some(footed(warn_view("An error has been made while invoking "@ + debug_quoted(invocation@) + fenced(error@)), user_footer()))
        } else {
            Some(footed(err_view("An error occurred during the execution of "@ + debug_quoted(invocation@) + fenced(error@)), bot_footer()))
        },
        FrameworkFailure::SubcommandRequired { invocation, subcommands } => Some(footed(
            err_view("Command "@ + debug_quoted(invocation@) + " must be used with the following subcommands"@
                + fenced(join_spec(bullets(subcommands.deep_view()), "\n"@))),
            bot_footer(),
        )),
        FrameworkFailure::CommandPanic => Some(status_view(
            ":exclamation:"@,
            "Panic"@,
            "An extremely bad error has occured. Please contact the bot owner and tell them to check the logs."@,
            rgb(178, 34, 34),
        )),
        FrameworkFailure::ArgumentParse { invocation, input, error } => Some(footed(
            err_view(parse_failure_text(invocation@, input) + "\n```"@ + error@ + "```"@),
            bot_footer(),
        )),
        FrameworkFailure::CommandStructureMismatch { command, description } => Some(footed(
            err_view("Structure mismatch between registered and programmed command for "@ + command@ + fenced(description@)),
            bot_footer(),
        )),
        FrameworkFailure::CooldownHit { invocation, remaining_secs } => Some(footed(
            warn_view("You must wait **"@ + decimal(remaining_secs as nat)
                + " seconds** before attempting to invoke this command again."@),
            user_footer(),
        )),
        FrameworkFailure::MissingBotPermissions { invocation, permissions } => Some(warn_view(
            "Bot requires the following permissions in order to execute "@ + debug_quoted(invocation@) + ": "@
                + permissions_text(permissions),
        )),
        FrameworkFailure::MissingUserPermissions { invocation, missing } => match missing {
            Some(p) => Some(footed(
                warn_view("You must have the following permissions to execute "@ + debug_quoted(invocation@)
                    + fenced(permissions_text(p))),
                user_footer(),
            )),
            None => Some(footed(
                warn_view("You do not have the permissions to execute "@ + debug_quoted(invocation@) + "."@),
                user_footer(),
            )),
        },
        FrameworkFailure::NotAnOwner { invocation } => Some(footed(
            warn_view(debug_quoted(invocation@) + " can only be invoked by the owner of the bot."@),
            user_footer(),
        )),
        FrameworkFailure::GuildOnly { invocation } => Some(footed(
            warn_view(debug_quoted(invocation@) + " can only be invoked inside of a server."@),
            user_footer(),
        )),
        FrameworkFailure::DmOnly { invocation } => Some(footed(
            warn_view(debug_quoted(invocation@) + " can only be invoked inside of a direct message."@),
            user_footer(),
        )),
        FrameworkFailure::NsfwOnly { invocation } => Some(footed(
            warn_view(debug_quoted(invocation@) + " can only be invoked inside of a NSFW channel."@),
            user_footer(),
        )),
        FrameworkFailure::CommandCheckFailed { invocation, reason } => match reason {
            Some(e) => Some(footed(
                err_view("Check failed to run for invocation "@ + debug_quoted(invocation@) + fenced(e@)),
                bot_footer(),
            )),
            None => None,
        },
        FrameworkFailure::DynamicPrefix => None,
        FrameworkFailure::UnknownCommand => None,
        FrameworkFailure::UnknownInteraction => None,
    }
}

/// The reply that carries an error embed: a reply, seen only by the invoker.
pub open spec fn error_reply_view(e: EmbedView) -> ReplyView {
    ReplyView { content: None, embed: Some(e), reply: true, ephemeral: true }
}

fn error_reply(e: Embed) -> (res: Reply)
    ensures
        res@ == error_reply_view(e@),
{
    Reply { content: None, embed: Some(e), reply: true, ephemeral: true }
}

fn fence(s: &str) -> (res: String)
    ensures
        res@ == fenced(s@),
{
    let a = concat(":\n```\n", s);
    concat(a.as_str(), "\n```")
}

fn user_footer_text() -> (res: String)
    ensures
        res@ == user_footer(),
{
    String::from_str("If you think this was an error with the bot, please contact the developer.")
}

fn bot_footer_text() -> (res: String)
    ensures
        res@ == bot_footer(),
{
    String::from_str("This is undoubtedly an error with the bot, please contact the developer.")
}

/// `"{invocation:?}"` followed by `rest`.
fn quoted_then(invocation: &str, rest: &str) -> (res: String)
    ensures
        res@ == debug_quoted(invocation@) + rest@,
{
    let q = debug_str(invocation);
    concat(q.as_str(), rest)
}

/// `before`, the quoted invocation, then `after`.
fn around_quoted(before: &str, invocation: &str, after: &str) -> (res: String)
    ensures
        res@ == before@ + debug_quoted(invocation@) + after@,
{
    let q = debug_str(invocation);
    let a = concat(before, q.as_str());
    concat(a.as_str(), after)
}

/// The reply sent for a framework failure, if any: an ephemeral reply with
/// the embed of [failure_embed].
pub fn error_handler(failure: &FrameworkFailure) -> (res: Option<Reply>)
    ensures
        match failure_embed(*failure) {
            None => res is None,
            Some(e) => res matches Some(r) && r@ == error_reply_view(e),
        },
{
    match failure {
        FrameworkFailure::Setup => None,
        FrameworkFailure::EventHandler => None,
        FrameworkFailure::Command { user_error, invocation, error: err } => {
            let f = fence(err.as_str());
            if *user_error {
                let d = around_quoted("An error has been made while invoking ", invocation.as_str(), f.as_str());
                Some(error_reply(warning(None, d).footer(user_footer_text())))
            } else {
                let d = around_quoted("An error occurred during the execution of ", invocation.as_str(), f.as_str());
                Some(error_reply(error(None, d).footer(bot_footer_text())))
            }
        },
        FrameworkFailure::SubcommandRequired { invocation, subcommands } => {
            let list = bullet_list(subcommands);
            let f = fence(list.as_str());
            let tail = concat(" must be used with the following subcommands", f.as_str());
            let d = around_quoted("Command ", invocation.as_str(), tail.as_str());
            assert(d@ =~= "Command "@ + debug_quoted(invocation@) + " must be used with the following subcommands"@
                + fenced(join_spec(bullets(subcommands.deep_view()), "\n"@)));
            Some(error_reply(error(None, d).footer(bot_footer_text())))
        },
        FrameworkFailure::CommandPanic => Some(error_reply(error(
            Some("Panic"),
            String::from_str(
                "An extremely bad error has occured. Please contact the bot owner and tell them to check the logs.",
            ),
        ))),
        FrameworkFailure::ArgumentParse { invocation, input, error: err } => {
            let description = match input {
                Some(s) => {
                    let q = debug_str(s.as_str());
                    let a = concat("Failed to parse ", q.as_str());
                    let b = concat(a.as_str(), " from invocation of ");
                    let qi = debug_str(invocation.as_str());
                    concat(b.as_str(), qi.as_str())
                },
                None => {
                    let qi = debug_str(invocation.as_str());
                    concat("Failed to parse argument from invocation of ", qi.as_str())
                },
            };
            let a = concat(description.as_str(), "\n```");
            let b = concat(a.as_str(), err.as_str());
            let d = concat(b.as_str(), "```");
            Some(error_reply(error(None, d).footer(bot_footer_text())))
        },
        FrameworkFailure::CommandStructureMismatch { command, description } => {
            let a = concat("Structure mismatch between registered and programmed command for ", command.as_str());
            let f = fence(description.as_str());
            let d = concat(a.as_str(), f.as_str());
            Some(error_reply(error(None, d).footer(bot_footer_text())))
        },
        FrameworkFailure::CooldownHit { invocation: _, remaining_secs } => {
            let secs = u64_to_decimal(*remaining_secs);
            let a = concat("You must wait **", secs.as_str());
            let d = concat(a.as_str(), " seconds** before attempting to invoke this command again.");
            Some(error_reply(warning(None, d).footer(user_footer_text())))
        },
        FrameworkFailure::MissingBotPermissions { invocation, permissions } => {
            let p = permissions_display(*permissions);
            let a = around_quoted("Bot requires the following permissions in order to execute ", invocation.as_str(), ": ");
            let d = concat(a.as_str(), p.as_str());
            Some(error_reply(warning(None, d)))
        },
        FrameworkFailure::MissingUserPermissions { invocation, missing } => match missing {
            Some(bits) => {
                let p = permissions_display(*bits);
                let f = fence(p.as_str());
                let d = around_quoted("You must have the following permissions to execute ", invocation.as_str(), f.as_str());
                Some(error_reply(warning(None, d).footer(user_footer_text())))
            },
            None => {
                let d = around_quoted("You do not have the permissions to execute ", invocation.as_str(), ".");
                Some(error_reply(warning(None, d).footer(user_footer_text())))
            },
        },
        FrameworkFailure::NotAnOwner { invocation } => {
            let d = quoted_then(invocation.as_str(), " can only be invoked by the owner of the bot.");
            Some(error_reply(warning(None, d).footer(user_footer_text())))
        },
        FrameworkFailure::GuildOnly { invocation } => {
            let d = quoted_then(invocation.as_str(), " can only be invoked inside of a server.");
            Some(error_reply(warning(None, d).footer(user_footer_text())))
        },
        FrameworkFailure::DmOnly { invocation } => {
            let d = quoted_then(invocation.as_str(), " can only be invoked inside of a direct message.");
            Some(error_reply(warning(None, d).footer(user_footer_text())))
        },
        FrameworkFailure::NsfwOnly { invocation } => {
            let d = quoted_then(invocation.as_str(), " can only be invoked inside of a NSFW channel.");
            Some(error_reply(warning(None, d).footer(user_footer_text())))
        },
        FrameworkFailure::CommandCheckFailed { invocation, reason } => match reason {
            Some(e) => {
                let f = fence(e.as_str());
                let d = around_quoted("Check failed to run for invocation ", invocation.as_str(), f.as_str());
                Some(error_reply(error(None, d).footer(bot_footer_text())))
            },
            None => None,
        },
        FrameworkFailure::DynamicPrefix => None,
        FrameworkFailure::UnknownCommand => None,
        FrameworkFailure::UnknownInteraction => None,
    }
}

} // verus!
