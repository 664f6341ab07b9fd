//! The `setup` command: the server's feature menu, what changing the
//! features does, and the choice of the role list channel.

use vstd::prelude::*;
use crate::commands::{BotCommand, admin_commands, role_commands, unserious_commands};
use crate::database::{GuildSettings, settings_options, SqlValue, SqlValueView, Statement, StatementView, by_id_and_group, id_value, statement,
    stored_id};
use crate::embed::{Embed, EmbedView, EmbedFieldView, SelectMenu, rgb, info_color, channel_mention, channel_mention_spec};
use crate::error::{BotError, debug_quoted, debug_str};
use crate::templates::status::{status_view, info, warning, error, success};
use crate::text::{capitalize, capitalize_spec, concat};

verus! {

/// How the roles switch changes.
#[derive(PartialEq, Eq, Structural, Clone, Copy, Debug)]
pub enum RolesTransition {
    /// Off before, on now.
    Enabled,
    /// On before and now.
    Kept,
    /// On before, off now.
    Disabled,
    /// Off before and now.
    Off,
}

/// How the roles switch changes from `old` to `new`.
pub open spec fn roles_transition_spec(old: bool, new: bool) -> RolesTransition {
    if new {
        if old {
            RolesTransition::Kept
        } else {
            RolesTransition::Enabled
        }
    } else if old {
        RolesTransition::Disabled
    } else {
        RolesTransition::Off
    }
}

/// Classifies the change of the roles switch.
pub fn roles_transition(old: bool, new: bool) -> (res: RolesTransition)
    ensures
        res == roles_transition_spec(old, new),
{
    if new {
        if old {
            RolesTransition::Kept
        } else {
            RolesTransition::Enabled
        }
    } else if old {
        RolesTransition::Disabled
    } else {
        RolesTransition::Off
    }
}

/// The settings stored after the menu: enabling roles stores the default
/// channel found for role lists, disabling them clears the channel, and
/// otherwise the channel is kept.
pub open spec fn settings_after_spec(updated: GuildSettings, old_roles: bool, default_channel: Option<u64>) -> GuildSettings {
    match roles_transition_spec(old_roles, updated.roles) {
        RolesTransition::Enabled => GuildSettings { roles_channel: default_channel, ..updated },
        RolesTransition::Disabled => GuildSettings { roles_channel: None, ..updated },
        _ => updated,
    }
}

/// Law of the settings menu: the switches are stored as chosen; turning the
/// roles switch on stores the default channel found for role lists,
/// turning it off clears the channel, and otherwise the channel chosen is
/// kept.
pub proof fn lemma_settings_after(updated: GuildSettings, old_roles: bool, default_channel: Option<u64>)
    ensures
        ({
            let r = settings_after_spec(updated, old_roles, default_channel);
            &&& r.admin == updated.admin
            &&& r.unserious == updated.unserious
            &&& r.messages == updated.messages
            &&& r.roles == updated.roles
            &&& (!old_roles && updated.roles) ==> r.roles_channel == default_channel
            &&& (old_roles && !updated.roles) ==> r.roles_channel is None
            &&& (old_roles == updated.roles) ==> r.roles_channel == updated.roles_channel
        }),
{
}

/// Applies the roles transition to the settings chosen in the menu.
pub fn settings_after(updated: GuildSettings, old_roles: bool, default_channel: Option<u64>) -> (res: GuildSettings)
    ensures
        res == settings_after_spec(updated, old_roles, default_channel),
        (!old_roles && updated.roles) ==> res.roles_channel == default_channel,
        (old_roles && !updated.roles) ==> res.roles_channel is None,
{
    let mut s = updated;
    match roles_transition(old_roles, s.roles) {
        RolesTransition::Enabled => {
            s.roles_channel = default_channel;
        },
        RolesTransition::Disabled => {
            s.roles_channel = None;
        },
        _ => {},
    }
    s
}

/// The commands registered in a server after the menu, in order:
/// administration commands, unserious commands, role commands, and the
/// unserious commands once more.
pub open spec fn commands_to_register_spec(s: GuildSettings) -> Seq<BotCommand> {
    (if s.admin {
        seq![BotCommand::Snap, BotCommand::Rewind]
    } else {
        Seq::<BotCommand>::empty()
    }) + (if s.unserious {
        seq![BotCommand::Bottomify]
    } else {
        Seq::<BotCommand>::empty()
    }) + (if s.roles {
        seq![BotCommand::Rolelist]
    } else {
        Seq::<BotCommand>::empty()
    }) + (if s.unserious {
        seq![BotCommand::Bottomify]
    } else {
        Seq::<BotCommand>::empty()
    })
}

fn extend(v: &mut Vec<BotCommand>, more: Vec<BotCommand>)
    ensures
        final(v)@ == old(v)@ + more@,
{
    let mut more = more;
    v.append(&mut more);
}

/// Lists the commands to register in a server with the given settings.
pub fn commands_to_register(s: &GuildSettings) -> (res: Vec<BotCommand>)
    ensures
        res@ == commands_to_register_spec(*s),
{
    let mut cmds: Vec<BotCommand> = Vec::new();
    if s.admin {
        extend(&mut cmds, admin_commands());
    }
    if s.unserious {
        extend(&mut cmds, unserious_commands());
    }
    if s.roles {
        extend(&mut cmds, role_commands());
    }
    if s.unserious {
        extend(&mut cmds, unserious_commands());
    }
    assert(cmds@ =~= commands_to_register_spec(*s));
    cmds
}

/// The embed above the feature menu.
pub open spec fn bot_prompt_view() -> EmbedView {
    EmbedView {
        title: Some("Bot Configuration"@),
        description: Some(
            "Below is a select menu to choose my features on a per-server basis. These can be changed at any time by simply running the command again."@,
        ),
        color: Some(rgb(102, 51, 102)),
        footer: None,
        fields: seq![
            EmbedFieldView {
                name: "Admin"@,
                value: "Toggles the usability of all server administration commands. Off by default for security (through obscurity) reasons."@,
                inline: false,
            },
            EmbedFieldView {
                name: "Unserious"@,
                value: "Toggles the appearence of memes, injokes or other related content. This setting encompasses all invocations of this across all other features."@,
                inline: false,
            },
            EmbedFieldView {
                name: "Messages"@,
                value: "Whether or not messages should be listened to outside of the standard text command context. This is mostly to reply to them based on regex."@,
                inline: false,
            },
            EmbedFieldView {
                name: "Roles"@,
                value: "Allows the creation and management of role lists to allow members to self-assign roles."@,
                inline: false,
            },
        ],
    }
}

/// Builds the embed above the feature menu.
pub fn bot_prompt() -> (res: Embed)
    ensures
        res@ == bot_prompt_view(),
{
    let mut e = Embed::new();
    e.title = Some(String::from_str("Bot Configuration"));
    e.color = Some(info_color());
    e.description = Some(
        String::from_str(
            "Below is a select menu to choose my features on a per-server basis. These can be changed at any time by simply running the command again.",
        ),
    );
    let e = e.field(
        String::from_str("Admin"),
        String::from_str(
            "Toggles the usability of all server administration commands. Off by default for security (through obscurity) reasons.",
        ),
        false,
    );
    let e = e.field(
        String::from_str("Unserious"),
        String::from_str(
            "Toggles the appearence of memes, injokes or other related content. This setting encompasses all invocations of this across all other features.",
        ),
        false,
    );
    let e = e.field(
        String::from_str("Messages"),
        String::from_str(
            "Whether or not messages should be listened to outside of the standard text command context. This is mostly to reply to them based on regex.",
        ),
        false,
    );
    let e = e.field(
        String::from_str("Roles"),
        String::from_str(
            "Allows the creation and management of role lists to allow members to self-assign roles.",
        ),
        false,
    );
    assert(e@.fields =~= bot_prompt_view().fields);
    e
}

/// The notice after enabling roles: where role lists will go, or a warning
/// that no channel could be found.
pub fn default_channel_notice(channel: Option<u64>) -> (res: Embed)
    ensures
        channel matches Some(c) ==> res@ == status_view(
            ":information_source:"@,
            "Info"@,
            "The current default channel for role lists is "@ + channel_mention_spec(c)
                + ". If this is not desired, please run `/setup roles` now."@,
            rgb(102, 51, 102),
        ),
        channel is None ==> res@ == status_view(
            ":warning:"@,
            "Warning"@,
            "Could not setup a default channel for roles. Before creating any lists, please run `/setup roles`."@,
            rgb(253, 253, 150),
        ),
{
    match channel {
        Some(c) => {
            let m = channel_mention(c);
            let a = concat("The current default channel for role lists is ", m.as_str());
            info(None, concat(a.as_str(), ". If this is not desired, please run `/setup roles` now."))
        },
        None => warning(
            None,
            String::from_str(
                "Could not setup a default channel for roles. Before creating any lists, please run `/setup roles`.",
            ),
        ),
    }
}

/// The warning shown when the message of a role group cannot be deleted.
pub fn undeletable_group_warning(group: &str) -> (res: Embed)
    ensures
        res@ == status_view(
            ":warning:"@,
            "Warning"@,
            "Either can't find or can't delete the message for the role group "@ + debug_quoted(group@)
                + ". Entries will be removed from the database, but the message will need to be deleted manually."@,
            rgb(253, 253, 150),
        ),
{
    let q = debug_str(group);
    let a = concat("Either can't find or can't delete the message for the role group ", q.as_str());
    warning(
        None,
        concat(
            a.as_str(),
            ". Entries will be removed from the database, but the message will need to be deleted manually.",
        ),
    )
}

/// The field confirming one switch: its name with a capital letter and
/// "Enabled" or "Disabled".
pub open spec fn switch_field(name: Seq<char>, on: bool) -> EmbedFieldView {
    EmbedFieldView {
        name: capitalize_spec(name),
        value: if on {
            "Enabled"@
        } else {
            "Disabled"@
        },
        inline: false,
    }
}

/// The embed confirming the new settings, one field per switch.
pub open spec fn settings_confirmation_view(s: GuildSettings) -> EmbedView {
    EmbedView {
        fields: seq![
            switch_field("admin"@, s.admin),
            switch_field("unserious"@, s.unserious),
            switch_field("messages"@, s.messages),
            switch_field("roles"@, s.roles),
        ],
        ..status_view(":white_check_mark:"@, "Server Settings Confirmed"@, "Your new settings are:"@, rgb(102, 51, 102))
    }
}

/// Builds the embed confirming the new settings.
pub fn settings_confirmation(s: &GuildSettings) -> (res: Embed)
    ensures
        res@ == settings_confirmation_view(*s),
{
    let arr = s.as_array();
    let mut e = success(Some("Server Settings Confirmed"), String::from_str("Your new settings are:"));
    let mut i: usize = 0;
    assert(settings_confirmation_view(*s).fields.take(0) =~= Seq::<EmbedFieldView>::empty());
    while i < 4
        invariant
            i <= 4,
            arr[0].0@ == "admin"@ && arr[0].1 == s.admin,
            arr[1].0@ == "unserious"@ && arr[1].1 == s.unserious,
            arr[2].0@ == "messages"@ && arr[2].1 == s.messages,
            arr[3].0@ == "roles"@ && arr[3].1 == s.roles,
            e@ == (EmbedView { fields: settings_confirmation_view(*s).fields.take(i as int), ..settings_confirmation_view(*s) }),
        decreases 4 - i,
    {
        let (name, value) = arr[i];
        let label = capitalize(name);
        let state = String::from_str(
            if value {
                "Enabled"
            } else {
                "Disabled"
            },
        );
        e = e.field(label, state, false);
        assert(settings_confirmation_view(*s).fields.take(i + 1) =~= settings_confirmation_view(*s).fields.take(
            i as int,
        ).push(switch_field(name@, value)));
        i = i + 1;
    }
    assert(settings_confirmation_view(*s).fields.take(4) =~= settings_confirmation_view(*s).fields);
    e
}

/// The feature menu of `setup bot`: one option per switch, those that are
/// on preselected, any number of them chosen.
pub fn settings_menu(s: &GuildSettings) -> (res: SelectMenu)
    ensures
        res@.custom_id == "setup.bot"@,
        res@.placeholder == Some("Please select features..."@),
        res@.min_values == Some(0u8),
        res@.max_values == Some(4u8),
        res@.options == settings_options(*s),
{
    SelectMenu {
        custom_id: String::from_str("setup.bot"),
        options: s.as_selectmenuoptions(),
        placeholder: Some(String::from_str("Please select features...")),
        min_values: Some(0),
        max_values: Some(4),
    }
}

/// The embed above the channel menu of `setup roles`.
pub fn roles_prompt() -> (res: Embed)
    ensures
        res@ == (EmbedView {
            title: Some("Role Setup"@),
            description: Some(
                "Please select a channel for role management to take place in. This channel should be completely empty save for the role lists. All interactions done with me via this channel will be ephemeral, so there should end up being no clutter."@,
            ),
            color: Some(rgb(102, 51, 102)),
            footer: None,
            fields: Seq::empty(),
        }),
{
    let mut e = Embed::new();
    e.title = Some(String::from_str("Role Setup"));
    e.color = Some(info_color());
    e.description = Some(
        String::from_str(
            "Please select a channel for role management to take place in. This channel should be completely empty save for the role lists. All interactions done with me via this channel will be ephemeral, so there should end up being no clutter.",
        ),
    );
    e
}

/// The channel chosen in `setup roles`: the selected channel if the bot can
/// post there (`ChannelInaccessable` otherwise), or the default channel when
/// nothing was selected.
pub fn choose_roles_channel(selected: Option<u64>, can_post_selected: bool, default_channel: Option<u64>) -> (res: Result<Option<u64>, BotError>)
    ensures
        selected matches Some(c) ==> (can_post_selected ==> res == Ok::<Option<u64>, BotError>(Some(c))),
        selected matches Some(c) ==> (!can_post_selected ==> (res matches Err(BotError::ChannelInaccessable))),
        selected is None ==> res == Ok::<Option<u64>, BotError>(default_channel),
{
    match selected {
        Some(c) => if can_post_selected {
            Ok(Some(c))
        } else {
            Err(BotError::ChannelInaccessable)
        },
        None => Ok(default_channel),
    }
}

/// The error shown when a role list cannot be moved to the new channel.
pub fn migration_failed(group: &str) -> (res: Embed)
    ensures
        res@ == status_view(
            ":exclamation:"@,
            "Error"@,
            "Failed to migrate role list "@ + debug_quoted(group@)
                + ". Either the wrong channel is stored or the message doesn't exist."@,
            rgb(178, 34, 34),
        ),
{
    let q = debug_str(group);
    let a = concat("Failed to migrate role list ", q.as_str());
    error(None, concat(a.as_str(), ". Either the wrong channel is stored or the message doesn't exist."))
}

/// The warning shown when role lists exist but no channel is stored.
pub fn unstored_lists_warning() -> (res: Embed)
    ensures
        res@ == status_view(
            ":warning:"@,
            "Warning"@,
            "Role lists were detected but no channel is stored for them. Existing role messages will still function, however the nature of this error means that they can't be deleted properly or migrated. In order to fix this make sure correct permissions are set on the channel where the old role lists are and then select that channel using this command."@,
            rgb(253, 253, 150),
        ),
{
    warning(
        None,
        String::from_str(
            "Role lists were detected but no channel is stored for them. Existing role messages will still function, however the nature of this error means that they can't be deleted properly or migrated. In order to fix this make sure correct permissions are set on the channel where the old role lists are and then select that channel using this command.",
        ),
    )
}

/// The embed confirming the channel of role lists.
pub fn roles_confirmation(channel: u64) -> (res: Embed)
    ensures
        res@ == (EmbedView {
            title: Some("Role Settings Confirmed!"@),
            description: Some("Roles will now be managed in "@ + channel_mention_spec(channel) + "."@),
            color: Some(rgb(102, 51, 102)),
            footer: None,
            fields: Seq::empty(),
        }),
{
    let mut e = Embed::new();
    e.title = Some(String::from_str("Role Settings Confirmed!"));
    e.color = Some(info_color());
    let m = channel_mention(channel);
    let a = concat("Roles will now be managed in ", m.as_str());
    e.description = Some(concat(a.as_str(), "."));
    e
}

/// The statement that forgets the roles of a list when role management is
/// switched off.
pub fn purge_group_roles(guild_id: u64, group: &str) -> (res: Statement)
    ensures
        res@ == (StatementView {
            sql: "DELETE FROM roles WHERE guild_id = ? AND group_name = ?"@,
            binds: seq![stored_id(guild_id), SqlValueView::Text(group@)],
        }),
{
    by_id_and_group("DELETE FROM roles WHERE guild_id = ? AND group_name = ?", guild_id, group)
}

/// The statement that records the message a role list was moved to. Its
/// parameters are bound in this order: the
/// server, the new message, then the group.
pub fn moved_group_statement(guild_id: u64, message_id: u64, group: &str) -> (res: Statement)
    ensures
        res@ == (StatementView {
            sql: "UPDATE role_groups SET group_message = ? WHERE guild_id = ? AND group_name = ?;"@,
            binds: seq![stored_id(guild_id), stored_id(message_id), SqlValueView::Text(group@)],
        }),
{
    let mut binds: Vec<SqlValue> = Vec::new();
    binds.push(id_value(guild_id));
    binds.push(id_value(message_id));
    binds.push(SqlValue::Text(String::from_str(group)));
    let res = statement("UPDATE role_groups SET group_message = ? WHERE guild_id = ? AND group_name = ?;", binds);
    assert(res@.binds =~= seq![stored_id(guild_id), stored_id(message_id), SqlValueView::Text(group@)]);
    res
}

/// The statement that stores the channel of role lists.
pub fn roles_channel_statement(channel: u64, guild_id: u64) -> (res: Statement)
    ensures
        res@ == (StatementView {
            sql: "UPDATE guild_settings SET roles_channel = ? WHERE guild_id = ?;"@,
            binds: seq![stored_id(channel), stored_id(guild_id)],
        }),
{
    let mut binds: Vec<SqlValue> = Vec::new();
    binds.push(id_value(channel));
    binds.push(id_value(guild_id));
    let res = statement("UPDATE guild_settings SET roles_channel = ? WHERE guild_id = ?;", binds);
    assert(res@.binds =~= seq![stored_id(channel), stored_id(guild_id)]);
    res
}

} // verus!
