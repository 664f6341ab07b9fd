//! Choosing the channel the bot posts to, and whether it can post there.

use vstd::prelude::*;
use crate::roles::{has_permission, permission_set, SEND_MESSAGES};

verus! {

/// The channel the bot would post to in a server: the system messages
/// channel when there is one, else the server's default channel.
pub fn bot_channel_candidate(system_channel: Option<u64>, default_channel: Option<u64>) -> (res: Option<u64>)
    ensures
        res == (match system_channel {
            Some(c) => Some(c),
            None => default_channel,
        }),
{
    match system_channel {
        Some(c) => Some(c),
        None => default_channel,
    }
}

/// The bot channel of a server: the candidate channel, kept only when the
/// bot can post there.
pub fn default_bot_channel(candidate: Option<u64>, postable: bool) -> (res: Option<u64>)
    ensures
        res == (if postable { candidate } else { None }),
{
    match candidate {
        Some(c) => if postable {
            Some(c)
        } else {
            None
        },
        None => None,
    }
}

/// What is known of a channel when deciding whether a user may post in it.
pub enum ChannelAccess {
    /// The channel could not be fetched, so it is probably not visible.
    Unreachable,
    /// A channel outside any server.
    Private,
    /// A server channel, with the user's permissions in it.
    Guild { permissions: u64 },
}

/// Whether a user may post in the channel: never in one that cannot be
/// fetched, always in a private one, and in a server channel when the user
/// has the `SEND_MESSAGES` permission there.
pub fn can_post(access: &ChannelAccess) -> (res: bool)
    ensures
        res == (match *access {
            ChannelAccess::Unreachable => false,
            ChannelAccess::Private => true,
            ChannelAccess::Guild { permissions } => has_permission(permissions, SEND_MESSAGES),
        }),
{
    match access {
        ChannelAccess::Unreachable => false,
        ChannelAccess::Private => true,
        ChannelAccess::Guild { permissions } => permission_set(*permissions, SEND_MESSAGES),
    }
}

} // verus!
