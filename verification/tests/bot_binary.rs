use abby_bot::bot::{
    autocomplete_category, autocomplete_roles, channel_created, channel_unusable, delete_group, filter_role,
    find_category, group_created, group_deleted, group_missing, group_undeletable, groups_query, id_split,
    insert_group, insert_role, intro_embed, intro_statement, introduce, kick_statements, list_channel,
    plan_channel, role_by_name, role_created, role_name_taken, rolelist_embed, Category, ListEntry,
};
use abby_bot::bot::{
    channel_confirmed, channel_options, channel_update, clear_group, count_statement, default_channel_note, group_edited,
    group_removed, moved_group, pick_changes, role_options_insert, role_tables, roles_disabled_statements, settings_update,
    TextChannel,
};
use abby_bot::database::SqlValue;
use abby_bot::db_structs::Server;
use abby_bot::roles::RoleChange;
use abby_bot::roles::RoleInfo;
use abby_bot::snap::ChannelKind;

fn role(id: u64, name: &str) -> RoleInfo {
    RoleInfo { id, name: String::from(name), permissions: 0 }
}

#[test]
fn links_and_their_errors() {
    assert_eq!(id_split("https://discord.com/channels/1/22/333").unwrap(), [22, 333]);
    assert_eq!(
        id_split("1/x/3").unwrap_err(),
        "Channel id isn't parseable. Please read the help for this command and try again."
    );
    assert_eq!(
        id_split("1/2/x").unwrap_err(),
        "Message id isn't parseable. Please read the help for this command and try again."
    );
}

#[test]
fn completions() {
    let names = vec![String::from("Red"), String::from("rose"), String::from("Blue")];
    assert_eq!(autocomplete_roles(&names, "r"), vec!["Red", "rose"]);
    assert!(autocomplete_roles(&names, "R").is_empty());
    assert_eq!(autocomplete_category(&names, "R"), vec!["Red"]);
}

#[test]
fn role_and_category_lookups() {
    let roles = vec![role(5, "@everyone"), role(7, "Fans"), role(8, "Fans")];
    assert_eq!(role_by_name(&roles, "Fans"), Some(7));
    assert_eq!(role_by_name(&roles, "fans"), None);
    assert_eq!(filter_role(&roles, None).unwrap(), None);
    assert_eq!(filter_role(&roles, Some("Fans")).unwrap(), Some(7));
    assert_eq!(filter_role(&roles, Some("@everyone")).unwrap_err(), "Role @everyone either does not exist or can't be used.");
    assert_eq!(filter_role(&roles, Some("Nope")).unwrap_err(), "Role Nope either does not exist or can't be used.");
    let cats = vec![Category { id: 30, name: String::from("Text") }, Category { id: 31, name: String::from("Voice") }];
    assert_eq!(find_category(&cats, Some("Voice")).unwrap(), Some(31));
    assert_eq!(find_category(&cats, None).unwrap(), None);
    assert_eq!(find_category(&cats, Some("Games")).unwrap_err(), "Category Games does not exist.");
}

#[test]
fn channel_plans_hide_from_everyone() {
    let roles = vec![role(7, "Fans"), role(5, "@everyone")];
    let plan = plan_channel(&roles, "fans-only", ChannelKind::Text, Some(7), None);
    assert_eq!(plan.kind, 0);
    assert_eq!(plan.overwrites.len(), 2);
    assert_eq!(plan.overwrites[0].role, 5);
    assert_eq!(plan.overwrites[0].deny, 1 << 10);
    assert_eq!(plan.overwrites[1].role, 7);
    assert_eq!(plan.overwrites[1].allow, 1 << 10);
}

#[test]
fn role_names_compare_lowercased() {
    let roles = vec![role(1, "Mods")];
    assert!(role_name_taken(&roles, "mods"));
    assert!(!role_name_taken(&roles, "Mods"));
}

#[test]
fn state_answers() {
    let e = channel_created("general");
    assert_eq!(e.title.as_deref(), Some(":white_check_mark: Success :white_check_mark:"));
    assert_eq!(e.description.as_deref(), Some("Channel general has been successfully added to the server."));
    assert_eq!(role_created("Fans").description.as_deref(), Some("Role Fans has been successfully created."));
    let f = channel_unusable();
    assert_eq!(f.title.as_deref(), Some(":warning: Failure :warning:"));
    assert_eq!(group_created("Colors").description.as_deref(), Some("Rolelist for group Colors has been created."));
    assert_eq!(group_missing("Colors").description.as_deref(), Some("Role group \"Colors\" does not exist."));
    assert_eq!(group_deleted("Colors").description.as_deref(), Some("Role group \"Colors\" has been deleted."));
    assert!(group_undeletable("Colors").description.unwrap().starts_with("Either can't find or can't delete the message for the role group \"Colors\"."));
}

#[test]
fn introductions() {
    assert!(introduce(Some(true), true));
    assert!(introduce(None, false));
    assert!(!introduce(Some(false), true));
    let e = intro_embed("https://example.org/abby");
    assert_eq!(e.title.as_deref(), Some("Hello I'm Abby!"));
    assert_eq!(e.fields.len(), 1);
    assert_eq!(e.fields[0].name, "Disclosure");
    assert!(e.fields[0].value.ends_with("[here](https://example.org/abby)."));
    assert!(e.fields[0].inline);
}

#[test]
fn per_server_tables() {
    assert_eq!(intro_statement(9).sql, "INSERT INTO servers (srvid) VALUES(?);");
    let k = kick_statements(42);
    let sql: Vec<&str> = k.iter().map(|s| s.sql.as_str()).collect();
    assert_eq!(
        sql,
        vec![
            "DELETE FROM servers WHERE srvid = ?;",
            "DELETE FROM role_options WHERE srvid = ?;",
            "DROP TABLE IF EXISTS roles_42;",
            "DROP TABLE IF EXISTS rgroups_42;",
        ]
    );
    assert_eq!(groups_query(42).sql, "SELECT * FROM rgroups_42;");
    let (g, r) = delete_group(42, "Colors");
    assert_eq!(g.sql, "DELETE FROM rgroups_42 WHERE name = ?;");
    assert_eq!(r.sql, "DELETE FROM roles_42 WHERE grp = ?;");
    let ins = insert_role(42, "7", "Colors");
    assert_eq!(ins.sql, "INSERT INTO roles_42 (id, grp, users) VALUES(?, ?, 0);");
    assert!(matches!(&ins.binds[0], SqlValue::Text(t) if t == "7"));
    let grp = insert_group(42, "Colors", 1000);
    assert_eq!(grp.sql, "INSERT INTO rgroups_42 (name, msg) VALUES (?, ?)");
    assert!(matches!(grp.binds[1], SqlValue::Int(1000)));
}

#[test]
fn list_channels() {
    assert_eq!(list_channel(Some(1), true, Some(2)), Some(1));
    assert_eq!(list_channel(Some(1), false, Some(2)), None);
    assert_eq!(list_channel(None, false, Some(2)), Some(2));
}

#[test]
fn role_list_embed_sorts_by_name() {
    let entries = vec![
        ListEntry { name: String::from("beta"), users: 3 },
        ListEntry { name: String::from("Alpha"), users: 1000 },
        ListEntry { name: String::from("gamma"), users: 0 },
    ];
    let e = rolelist_embed("Colors", &entries);
    assert_eq!(e.title.as_deref(), Some("Colors"));
    assert_eq!(e.fields[0].value, "Alpha\nbeta\ngamma");
    assert_eq!(e.fields[1].value, "1000\n3\n0");
}

#[test]
fn buttons_of_the_bot_binary() {
    let changes = pick_changes(&vec![1, 2, 3], &vec![2, 3], &vec![1, 2]);
    assert!(matches!(changes[0], RoleChange::Add));
    assert!(matches!(changes[1], RoleChange::Remove));
    assert!(matches!(changes[2], RoleChange::Remove));
    assert!(count_statement(42, 7, 5, RoleChange::Keep).is_none());
    let up = count_statement(42, 7, u16::MAX, RoleChange::Add).unwrap();
    assert_eq!(up.sql, "UPDATE roles_42 SET users = ? WHERE id = ?;");
    assert!(matches!(up.binds[0], SqlValue::Int(65535)));
    assert!(matches!(up.binds[1], SqlValue::Int(7)));
    let down = count_statement(42, 7, 0, RoleChange::Remove).unwrap();
    assert!(matches!(down.binds[0], SqlValue::Int(0)));
    assert_eq!(clear_group(42, "Colors").sql, "DELETE FROM roles_42 WHERE grp = ?;");
    assert_eq!(
        group_edited("Colors").description.as_deref(),
        Some("Editing of group Colors has been recreated. The original interaction should be already updated.")
    );
    assert_eq!(group_removed("Colors").description.as_deref(), Some("Role group Colors has been deleted."));
}

#[test]
fn settings_of_the_bot_binary() {
    let server = Server { srvid: 1234, serious: true, messages: false, roles: false };
    let values = vec![String::from("enable_messages"), String::from("enable_roles")];
    let st = settings_update(&server, &values);
    assert_eq!(st.sql, "UPDATE servers SET serious = false,messages = true,roles = true WHERE srvid = 1234;");
    assert!(st.binds.is_empty());
    let negative = Server { srvid: -5, serious: true, messages: false, roles: false };
    assert_eq!(
        settings_update(&negative, &Vec::new()).sql,
        "UPDATE servers SET serious = false,messages = false,roles = false WHERE srvid = -5;"
    );
}

#[test]
fn role_setup_of_the_bot_binary() {
    let (roles, groups) = role_tables(42);
    assert_eq!(
        roles.sql,
        "CREATE TABLE IF NOT EXISTS roles_42 (id BIGINT PRIMARY KEY NOT NULL, grp TEXT NOT NULL, users INTEGER NOT NULL);"
    );
    assert_eq!(groups.sql, "CREATE TABLE IF NOT EXISTS rgroups_42 (name TEXT PRIMARY KEY NOT NULL, msg BIGINT NOT NULL);");
    let ins = role_options_insert(42, None);
    assert!(matches!(ins.binds[1], SqlValue::Null));
    let note = default_channel_note(Some("general"));
    assert_eq!(
        note.description.as_deref(),
        Some("The current default channel for role lists is `general`. If this is not wanted, please run `/setup roles` now.")
    );
    assert_eq!(note.color, Some((253 << 16) | (253 << 8) | 150));
    assert_eq!(default_channel_note(None).color, Some((178 << 16) | (34 << 8) | 34));
    let off = roles_disabled_statements(42, 42);
    let sql: Vec<&str> = off.iter().map(|s| s.sql.as_str()).collect();
    assert_eq!(
        sql,
        vec!["DROP TABLE IF EXISTS roles_42;", "DELETE FROM role_options WHERE srvid = ?;", "DROP TABLE IF EXISTS rgroups_42;"]
    );
    let channels = vec![TextChannel { id: 7, name: String::from("roles") }, TextChannel { id: 8, name: String::from("chat") }];
    let opts = channel_options(&channels, Some(8));
    let got: Vec<(&str, &str, bool)> =
        opts.iter().map(|o| (o.label.as_str(), o.value.as_str(), o.default_selected)).collect();
    assert_eq!(got, vec![("roles", "7", false), ("chat", "8", true)]);
    assert_eq!(moved_group(42, 9, "Colors").sql, "UPDATE rgroups_42 SET msg = ? WHERE name = ?;");
    assert_eq!(channel_update(7, 42).sql, "UPDATE role_options SET channel = ? WHERE srvid = ?;");
    assert_eq!(
        channel_confirmed("roles").description.as_deref(),
        Some("Roles will now be managed in the #roles channel.")
    );
}
