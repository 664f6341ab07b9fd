//! The `snap` command: quickly adding a channel or a role to a server.

use vstd::prelude::*;
use crate::embed::{Embed, channel_mention, channel_mention_spec, rgb, role_mention, role_mention_spec};
use crate::error::BotError;
use crate::roles::{RoleInfo, VIEW_CHANNEL};
use crate::templates::status::{status_view, success};
use crate::text::{concat, str_eq};

verus! {

/// The kinds of channel `snap channel` creates.
#[derive(Clone, Copy, PartialEq, Eq, Structural)]
pub enum ChannelKind {
    Text,
    Voice,
    Forum,
}

/// The Discord channel type number of each kind.
pub open spec fn channel_type_spec(kind: ChannelKind) -> u8 {
    match kind {
        ChannelKind::Text => 0,
        ChannelKind::Voice => 2,
        ChannelKind::Forum => 15,
    }
}

/// The Discord channel type number of a kind.
pub fn channel_type(kind: ChannelKind) -> (res: u8)
    ensures
        res == channel_type_spec(kind),
{
    match kind {
        ChannelKind::Text => 0,
        ChannelKind::Voice => 2,
        ChannelKind::Forum => 15,
    }
}

/// A permission overwrite for one role of a channel.
#[derive(Clone, Copy, PartialEq, Eq, Structural)]
pub struct Overwrite {
    pub allow: u64,
    pub deny: u64,
    pub role: u64,
}

/// The channel that `snap channel` asks Discord to create.
pub struct ChannelPlan {
    pub name: String,
    /// The Discord channel type number.
    pub kind: u8,
    pub overwrites: Vec<Overwrite>,
    pub category: Option<u64>,
}

/// The overwrites that hide a channel from everyone but the holders of
/// `filter`; the `@everyone` role of a server has the server's id.
pub open spec fn filter_overwrites(guild_id: u64, filter: Option<u64>) -> Seq<Overwrite> {
    match filter {
        None => Seq::empty(),
        Some(r) => seq![
            Overwrite { allow: 0, deny: VIEW_CHANNEL, role: guild_id },
            Overwrite { allow: VIEW_CHANNEL, deny: 0, role: r },
        ],
    }
}

/// The channel to create: its name and kind, seen only by the holders of
/// `role_filter` when one is given, under `category` when one is given.
pub fn channel_plan(
    guild_id: u64,
    name: &str,
    kind: ChannelKind,
    role_filter: Option<u64>,
    category: Option<u64>,
) -> (res: ChannelPlan)
    ensures
        res.name@ == name@,
        res.kind == channel_type_spec(kind),
        res.overwrites@ == filter_overwrites(guild_id, role_filter),
        res.category == category,
{
    let mut overwrites: Vec<Overwrite> = Vec::new();
    match role_filter {
        Some(r) => {
            overwrites.push(Overwrite { allow: 0, deny: VIEW_CHANNEL, role: guild_id });
            overwrites.push(Overwrite { allow: VIEW_CHANNEL, deny: 0, role: r });
        },
        None => {},
    }
    assert(overwrites@ =~= filter_overwrites(guild_id, role_filter));
    ChannelPlan { name: String::from_str(name), kind: channel_type(kind), overwrites, category }
}

/// The text confirming a new channel.
pub open spec fn channel_added_text(channel: u64) -> Seq<char> {
    "Channel "@ + channel_mention_spec(channel) + " has been successfully added to the server."@
}

/// The embed confirming that a channel was added.
pub fn channel_added(channel: u64) -> (res: Embed)
    ensures
        res@ == status_view(":white_check_mark:"@, "Snap Complete"@, channel_added_text(channel), rgb(102, 51, 102)),
{
    let m = channel_mention(channel);
    let a = concat("Channel ", m.as_str());
    success(Some("Snap Complete"), concat(a.as_str(), " has been successfully added to the server."))
}

/// Whether a server has a role with exactly this name.
pub open spec fn name_taken(roles: Seq<RoleInfo>, name: Seq<char>) -> bool {
    exists|k: int| 0 <= k < roles.len() && #[trigger] roles[k].name@ == name
}

/// A new role may not share its name with a role of the server:
/// `RoleAlreadyExists` when one does.
pub fn check_role_name(roles: &Vec<RoleInfo>, name: &str) -> (res: Result<(), BotError>)
    ensures
        name_taken(roles@, name@) ==> res matches Err(BotError::RoleAlreadyExists),
        !name_taken(roles@, name@) ==> res is Ok,
{
    let mut i: usize = 0;
    while i < roles.len()
        invariant
            i <= roles@.len(),
            forall|k: int| 0 <= k < i ==> #[trigger] roles@[k].name@ != name@,
        decreases roles@.len() - i,
    {
        if str_eq(roles[i].name.as_str(), name) {
            return Err(BotError::RoleAlreadyExists);
        }
        i = i + 1;
    }
    Ok(())
}

/// The text confirming a new role; it calls the role a channel.
pub open spec fn role_added_text(role: u64) -> Seq<char> {
    "Channel "@ + role_mention_spec(role) + " has been successfully added to the server."@
}

/// The embed confirming that a role was added.
pub fn role_added(role: u64) -> (res: Embed)
    ensures
        res@ == status_view(":white_check_mark:"@, "Snap Complete"@, role_added_text(role), rgb(102, 51, 102)),
{
    let m = role_mention(role);
    let a = concat("Channel ", m.as_str());
    success(Some("Snap Complete"), concat(a.as_str(), " has been successfully added to the server."))
}

} // verus!
