//! The commands of the bot, grouped by the feature that enables them.

use vstd::prelude::*;
use crate::embed::{Embed, EmbedView, EmbedFieldView};
use crate::text::replace_char;

verus! {

/// A top-level command of the bot.
#[derive(PartialEq, Eq, Structural, Clone, Copy, Debug)]
pub enum BotCommand {
    Help,
    About,
    Setup,
    Snap,
    Rewind,
    Rolelist,
    Bottomify,
}

/// Commands registered everywhere.
pub fn global_commands() -> (res: Vec<BotCommand>)
    ensures
        res@ == seq![BotCommand::Help, BotCommand::About, BotCommand::Setup],
{
    let mut v = Vec::new();
    v.push(BotCommand::Help);
    v.push(BotCommand::About);
    v.push(BotCommand::Setup);
    assert(v@ =~= seq![BotCommand::Help, BotCommand::About, BotCommand::Setup]);
    v
}

/// Administration commands.
pub fn admin_commands() -> (res: Vec<BotCommand>)
    ensures
        res@ == seq![BotCommand::Snap, BotCommand::Rewind],
{
    let mut v = Vec::new();
    v.push(BotCommand::Snap);
    v.push(BotCommand::Rewind);
    assert(v@ =~= seq![BotCommand::Snap, BotCommand::Rewind]);
    v
}

/// Role management commands.
pub fn role_commands() -> (res: Vec<BotCommand>)
    ensures
        res@ == seq![BotCommand::Rolelist],
{
    let mut v = Vec::new();
    v.push(BotCommand::Rolelist);
    assert(v@ =~= seq![BotCommand::Rolelist]);
    v
}

/// Meme and otherwise unserious commands.
pub fn unserious_commands() -> (res: Vec<BotCommand>)
    ensures
        res@ == seq![BotCommand::Bottomify],
{
    let mut v = Vec::new();
    v.push(BotCommand::Bottomify);
    assert(v@ =~= seq![BotCommand::Bottomify]);
    v
}

/// The "about" embed: the description, the authors one per line (the
/// package writes them separated by `:`), the version and the repository.
pub open spec fn about_view(description: Seq<char>, authors: Seq<char>, version: Seq<char>, repository: Seq<char>) -> EmbedView {
    EmbedView {
        title: None,
        description: Some(description),
        color: Some(663366u32),
        footer: Some("Made with incompetence"@),
        fields: seq![
            EmbedFieldView { name: "Creator"@, value: crate::text::replace_char_spec(authors, ':', "\n"@), inline: true },
            EmbedFieldView { name: "Version"@, value: version, inline: true },
            EmbedFieldView { name: "Repository"@, value: repository, inline: false },
        ],
    }
}

/// Builds the "about" embed from the package's metadata.
pub fn about_embed(description: &str, authors: &str, version: &str, repository: &str) -> (res: Embed)
    ensures
        res@ == about_view(description@, authors@, version@, repository@),
{
    let mut e = Embed::new();
    e.color = Some(663366u32);
    e.description = Some(String::from_str(description));
    let e = e.field(String::from_str("Creator"), replace_char(authors, ':', "\n"), true);
    let e = e.field(String::from_str("Version"), String::from_str(version), true);
    let e = e.field(String::from_str("Repository"), String::from_str(repository), false);
    let e = e.footer(String::from_str("Made with incompetence"));
    assert(e@.fields =~= about_view(description@, authors@, version@, repository@).fields);
    e
}

} // verus!
