use abby_bot::checks::{admin, feature_not_enabled, roles, unserious};
use abby_bot::database::{
    delete_group, delete_guild, id_value, insert_guild, insert_role, roles_from_query, select_guilds, CheckGuildSetting,
    GuildSettings, SqlValue,
};
use abby_bot::error::BotError;
use abby_bot::shared;
use abby_bot::snap::{channel_added, channel_plan, channel_type, check_role_name, role_added, ChannelKind, Overwrite};
use abby_bot::roles::RoleInfo;
use abby_bot::utils::{bot_channel_candidate, can_post, default_bot_channel, ChannelAccess};

fn int_of(v: &SqlValue) -> i64 {
    match v {
        SqlValue::Int(i) => *i,
        _ => panic!("expected an integer"),
    }
}

fn same_settings(a: &GuildSettings, b: &GuildSettings) -> bool {
    a.admin == b.admin
        && a.unserious == b.unserious
        && a.messages == b.messages
        && a.roles == b.roles
        && a.roles_channel == b.roles_channel
}

#[test]
fn checks_follow_the_switches() {
    let on = admin(Some(true));
    assert!(on.allowed && on.notice.is_none());
    let outside = admin(None);
    assert!(!outside.allowed && outside.notice.is_none());
    let off = admin(Some(false));
    assert!(!off.allowed);
    let notice = off.notice.unwrap();
    assert!(notice.reply && notice.ephemeral);
    let e = notice.embed.unwrap();
    assert_eq!(e.title.as_deref(), Some(":warning: Feature Not Enabled :warning:"));
    assert_eq!(e.description.as_deref(), Some("The \"roles\" feature is not enabled in this server."));
    assert!(roles(Some(true)).allowed);
    assert!(!roles(None).allowed);
    assert!(unserious(None).allowed);
    let off = unserious(Some(false));
    assert_eq!(
        off.notice.unwrap().embed.unwrap().description.as_deref(),
        Some("The \"unserious\" feature is not enabled in this server.")
    );
    let r = feature_not_enabled("messages");
    assert_eq!(
        r.embed.unwrap().description.as_deref(),
        Some("The \"messages\" feature is not enabled in this server.")
    );
}

#[test]
fn statements_bind_ids_as_signed_integers() {
    assert_eq!(int_of(&id_value(5)), 5);
    assert_eq!(int_of(&id_value(u64::MAX)), -1);
    let s = insert_guild(1234);
    assert_eq!(s.sql, "INSERT INTO guild_settings (guild_id) VALUES (?);");
    assert_eq!(s.binds.len(), 1);
    assert_eq!(int_of(&s.binds[0]), 1234);
    assert_eq!(delete_guild(7).sql, "DELETE FROM guild_settings WHERE guild_id = ?;");
    assert!(select_guilds().binds.is_empty());
    let q = roles_from_query(7, "Colors");
    assert_eq!(q.sql, "SELECT role_id FROM roles WHERE guild_id = ? AND group_name = ?;");
    assert!(matches!(&q.binds[1], SqlValue::Text(t) if t == "Colors"));
    let (groups, roles) = delete_group(7, "Colors");
    assert_eq!(groups.sql, "DELETE FROM role_groups WHERE guild_id = ? AND group_name = ?;");
    assert_eq!(roles.sql, "DELETE FROM roles WHERE guild_id = ? AND group_name = ?;");
    let r = insert_role(7, "Colors", 99);
    assert_eq!(int_of(&r.binds[2]), 99);
    assert_eq!(CheckGuildSetting::Role.query(3).sql, "SELECT roles FROM guild_settings WHERE guild_id = ?;");
}

#[test]
fn settings_read_back_from_their_row() {
    let s = GuildSettings { unserious: true, admin: false, messages: true, roles: true, roles_channel: Some(77) };
    let st = s.update(5);
    let b = |i: usize| matches!(st.binds[i], SqlValue::Bool(true));
    let back = GuildSettings::from_row(b(0), b(1), b(2), b(3), Some(int_of(&st.binds[4])));
    assert!(same_settings(&back, &s));
    let big = GuildSettings { roles_channel: Some(u64::MAX), ..s };
    let st = big.update(5);
    assert!(same_settings(&GuildSettings::from_row(false, true, true, true, Some(int_of(&st.binds[4]))), &big));
    assert!(same_settings(
        &GuildSettings::from_row(true, false, false, false, None),
        &GuildSettings { admin: true, unserious: false, messages: false, roles: false, roles_channel: None }
    ));
}

#[test]
fn settings_update_binds_every_switch() {
    let s = GuildSettings { unserious: false, admin: true, messages: true, roles: false, roles_channel: Some(77) };
    let st = s.update(5);
    assert_eq!(
        st.sql,
        "UPDATE guild_settings SET admin = ?, unserious = ?, messages = ?, roles = ?, roles_channel = ? WHERE guild_id = ?;"
    );
    assert!(matches!(st.binds[0], SqlValue::Bool(true)));
    assert!(matches!(st.binds[1], SqlValue::Bool(false)));
    assert!(matches!(st.binds[2], SqlValue::Bool(true)));
    assert!(matches!(st.binds[3], SqlValue::Bool(false)));
    assert_eq!(int_of(&st.binds[4]), 77);
    assert_eq!(int_of(&st.binds[5]), 5);
    let none = GuildSettings { roles_channel: None, ..s };
    assert!(matches!(none.update(5).binds[4], SqlValue::Null));
}

#[test]
fn channels_of_each_kind() {
    assert_eq!(channel_type(ChannelKind::Text), 0);
    assert_eq!(channel_type(ChannelKind::Voice), 2);
    assert_eq!(channel_type(ChannelKind::Forum), 15);
}

#[test]
fn a_role_filter_hides_the_channel_from_everyone_else() {
    let plan = channel_plan(100, "secret", ChannelKind::Voice, Some(7), Some(9));
    assert_eq!(plan.name, "secret");
    assert_eq!(plan.kind, 2);
    assert_eq!(plan.category, Some(9));
    assert_eq!(plan.overwrites.len(), 2);
    assert!(plan.overwrites[0] == Overwrite { allow: 0, deny: 1 << 10, role: 100 });
    assert!(plan.overwrites[1] == Overwrite { allow: 1 << 10, deny: 0, role: 7 });
    let open = channel_plan(100, "general", ChannelKind::Text, None, None);
    assert!(open.overwrites.is_empty());
    assert_eq!(open.category, None);
}

#[test]
fn snap_answers() {
    assert_eq!(
        channel_added(42).description.as_deref(),
        Some("Channel <#42> has been successfully added to the server.")
    );
    assert_eq!(channel_added(42).title.as_deref(), Some(":white_check_mark: Snap Complete :white_check_mark:"));
    assert_eq!(role_added(42).description.as_deref(), Some("Channel <@&42> has been successfully added to the server."));
}

#[test]
fn role_names_must_be_new() {
    let roles = vec![RoleInfo { id: 1, name: String::from("Mods"), permissions: 0 }];
    assert!(matches!(check_role_name(&roles, "Mods"), Err(BotError::RoleAlreadyExists)));
    assert!(check_role_name(&roles, "mods").is_ok());
    assert!(check_role_name(&Vec::new(), "Mods").is_ok());
}

#[test]
fn bot_channels() {
    assert_eq!(bot_channel_candidate(Some(1), Some(2)), Some(1));
    assert_eq!(bot_channel_candidate(None, Some(2)), Some(2));
    assert_eq!(bot_channel_candidate(None, None), None);
    assert_eq!(default_bot_channel(Some(1), true), Some(1));
    assert_eq!(default_bot_channel(Some(1), false), None);
    assert!(!can_post(&ChannelAccess::Unreachable));
    assert!(can_post(&ChannelAccess::Private));
    assert!(can_post(&ChannelAccess::Guild { permissions: (1 << 10) | (1 << 11) }));
    assert!(!can_post(&ChannelAccess::Guild { permissions: 1 << 10 }));
    assert_eq!(shared::default_bot_channel(None, Some(5), true), Some(5));
    assert_eq!(shared::default_bot_channel(Some(3), Some(5), true), Some(3));
    assert_eq!(shared::default_bot_channel(Some(3), Some(5), false), None);
    assert!(shared::can_post(1 << 11));
    assert!(!shared::can_post(0));
}

#[test]
fn menu_of_every_role() {
    let roles = vec![
        RoleInfo { id: 5, name: String::from("@everyone"), permissions: 0 },
        RoleInfo { id: 9, name: String::from("Mods"), permissions: 1 << 28 },
        RoleInfo { id: 2, name: String::from("Fans"), permissions: 0 },
    ];
    let opts = shared::all_roles_select(&roles, Some(&vec![2]));
    let got: Vec<(&str, &str, bool)> =
        opts.iter().map(|o| (o.label.as_str(), o.value.as_str(), o.default_selected)).collect();
    assert_eq!(got, vec![("Mods", "9", false), ("Fans", "2", true)]);
    let plain = shared::fetch_all_roles(&roles);
    assert!(plain.iter().all(|o| !o.default_selected));
    assert_eq!(plain.len(), 2);
    assert!(shared::role_filter(&roles[0]));
    assert!(!shared::role_filter(&roles[1]));
    let notice = shared::feature_not_enabled();
    assert_eq!(notice.content.as_deref(), Some(""));
    assert_eq!(notice.embed.unwrap().title.as_deref(), Some(":warning: Failure :warning:"));
}
