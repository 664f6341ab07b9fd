//! Helpers of the shared utility crate of the bot: the feature notice, the
//! role filter, the bot channel and the menu of every role of a server.

use vstd::prelude::*;
use crate::embed::{Embed, EmbedView, Reply, ReplyView, SelectOption, SelectOptionView, error_color, rgb};
use crate::roles::{RoleInfo, contains_id, has_permission, is_moderation_role, permission_set, SEND_MESSAGES};
use crate::text::{decimal, str_eq, u64_to_decimal};

verus! {

/// The notice sent when a command needs a feature that is switched off.
pub open spec fn failure_notice_view() -> ReplyView {
    ReplyView {
        content: Some(Seq::empty()),
        embed: Some(EmbedView {
            title: Some(":warning: Failure :warning:"@),
            description: Some(
                "This command requires a feature that isn't enabled on the server. If this is a mistake, have an admin run `/setup bot` to change it."@,
            ),
            color: Some(rgb(178, 34, 34)),
            footer: None,
            fields: Seq::empty(),
        }),
        reply: false,
        ephemeral: false,
    }
}

/// The message telling the invoker that the command needs a feature that
/// is not enabled on the server.
pub fn feature_not_enabled() -> (res: Reply)
    ensures
        res@ == failure_notice_view(),
{
    let mut e = Embed::new();
    e.title = Some(String::from_str(":warning: Failure :warning:"));
    e.color = Some(error_color());
    e.description = Some(String::from_str(
        "This command requires a feature that isn't enabled on the server. If this is a mistake, have an admin run `/setup bot` to change it.",
    ));
    let content = String::new();
    assert(content@ =~= Seq::<char>::empty());
    Reply { content: Some(content), embed: Some(e), reply: false, ephemeral: false }
}

/// The bot never assigns roles that let their holders modify the server.
/// Returns `true` when the role is safe to assign.
pub fn role_filter(role: &RoleInfo) -> (res: bool)
    ensures
        res == !is_moderation_role(role.permissions),
{
    !(permission_set(role.permissions, crate::roles::ADMINISTRATOR)
        || permission_set(role.permissions, crate::roles::MANAGE_CHANNELS)
        || permission_set(role.permissions, crate::roles::MANAGE_GUILD_EXPRESSIONS)
        || permission_set(role.permissions, crate::roles::MANAGE_EVENTS)
        || permission_set(role.permissions, crate::roles::MANAGE_GUILD)
        || permission_set(role.permissions, crate::roles::MANAGE_MESSAGES)
        || permission_set(role.permissions, crate::roles::MANAGE_NICKNAMES)
        || permission_set(role.permissions, crate::roles::MANAGE_ROLES)
        || permission_set(role.permissions, crate::roles::MANAGE_THREADS)
        || permission_set(role.permissions, crate::roles::MANAGE_WEBHOOKS))
}

/// The channel the bot posts to in a server: the system messages channel
/// when there is one, else the default channel; `None` when the bot
/// cannot post in it. The default channel is looked up even when a system
/// channel exists, and the lookup fails without one, so the server must
/// have a default channel.
pub fn default_bot_channel(system_channel: Option<u64>, default_channel: Option<u64>, postable: bool) -> (res: Option<
    u64,
>)
    requires
        default_channel is Some,
    ensures
        res == (if postable {
            Some(
                match system_channel {
                    Some(c) => c,
                    None => default_channel.unwrap(),
                },
            )
        } else {
            None
        }),
{
    let fallback = match default_channel {
        Some(d) => d,
        None => 0,
    };
    let channel = match system_channel {
        Some(c) => c,
        None => fallback,
    };
    if !postable {
        return None;
    }
    Some(channel)
}

/// Whether a member with these permissions in a channel may post there.
pub fn can_post(permissions: u64) -> (res: bool)
    ensures
        res == has_permission(permissions, SEND_MESSAGES),
{
    permission_set(permissions, SEND_MESSAGES)
}

/// The option listing a role in the menu of every role.
pub open spec fn listed_role(r: RoleInfo, selected: bool) -> SelectOptionView {
    SelectOptionView { label: r.name@, value: decimal(r.id as nat), default_selected: selected }
}

/// The roles that the menu of every role lists: all but `@everyone`, in
/// the order given.
pub open spec fn listed_roles(roles: Seq<RoleInfo>) -> Seq<RoleInfo> {
    roles.filter(|r: RoleInfo| r.name@ != "@everyone"@)
}

/// Whether an id is among the optional overlap.
pub open spec fn in_overlap(overlap: Option<Seq<u64>>, id: u64) -> bool {
    match overlap {
        Some(ids) => ids.contains(id),
        None => false,
    }
}

/// A select option for every role of the server but `@everyone`, in the
/// order the roles are given; a role is preselected when `overlap` holds
/// its id.
pub fn all_roles_select(roles: &Vec<RoleInfo>, overlap: Option<&Vec<u64>>) -> (res: Vec<SelectOption>)
    ensures
        res@.map_values(|o: SelectOption| o@) == listed_roles(roles@).map_values(
            |r: RoleInfo| listed_role(r, in_overlap(
                match overlap {
                    Some(v) => Some(v@),
                    None => None,
                },
                r.id,
            )),
        ),
{
    let ghost ov = match overlap {
        Some(v) => Some(v@),
        None => None,
    };
    let ghost pred = |r: RoleInfo| r.name@ != "@everyone"@;
    let ghost f = |r: RoleInfo| listed_role(r, in_overlap(ov, r.id));
    let mut list: Vec<SelectOption> = Vec::new();
    let mut i: usize = 0;
    assert(roles@.take(0).filter(pred) =~= Seq::<RoleInfo>::empty()) by {
        reveal_with_fuel(Seq::<_>::filter, 1);
    }
    while i < roles.len()
        invariant
            i <= roles@.len(),
            pred == (|r: RoleInfo| r.name@ != "@everyone"@),
            f == (|r: RoleInfo| listed_role(r, in_overlap(ov, r.id))),
            ov == (match overlap {
                Some(v) => Some(v@),
                None => None,
            }),
            list@.map_values(|o: SelectOption| o@) =~= roles@.take(i as int).filter(pred).map_values(f),
        decreases roles@.len() - i,
    {
        proof {
            reveal_with_fuel(Seq::<_>::filter, 1);
        }
        assert(roles@.take(i + 1).drop_last() =~= roles@.take(i as int));
        assert(roles@.take(i + 1).last() == roles@[i as int]);
        let r = &roles[i];
        if !str_eq(r.name.as_str(), "@everyone") {
            let sel = match overlap {
                Some(ids) => contains_id(ids, r.id),
                None => false,
            };
            assert(sel == in_overlap(ov, r.id));
            let opt = SelectOption { label: r.name.clone(), value: u64_to_decimal(r.id), default_selected: sel };
            let ghost before = list@.map_values(|o: SelectOption| o@);
            list.push(opt);
            assert(list@.map_values(|o: SelectOption| o@) =~= before.push(f(roles@[i as int])));
            assert(roles@.take(i + 1).filter(pred) =~= roles@.take(i as int).filter(pred).push(roles@[i as int]));
        } else {
            assert(roles@.take(i + 1).filter(pred) =~= roles@.take(i as int).filter(pred));
        }
        i = i + 1;
    }
    assert(roles@.take(i as int) =~= roles@);
    list
}

/// A select option for every role of the server but `@everyone`, in the
/// order the roles are given, none preselected.
pub fn fetch_all_roles(roles: &Vec<RoleInfo>) -> (res: Vec<SelectOption>)
    ensures
        res@.map_values(|o: SelectOption| o@) == listed_roles(roles@).map_values(|r: RoleInfo| listed_role(r, false)),
{
    let res = all_roles_select(roles, None);
    assert(listed_roles(roles@).map_values(|r: RoleInfo| listed_role(r, in_overlap(None, r.id))) =~= listed_roles(
        roles@,
    ).map_values(|r: RoleInfo| listed_role(r, false)));
    res
}

} // verus!
