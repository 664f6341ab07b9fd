use abby_bot::commands::{admin_commands, global_commands, role_commands, unserious_commands, BotCommand};
use abby_bot::database::GuildSettings;
use abby_bot::events::{handler, left_server, listens_to, marked_new, purge_list, ready_actions, GuildAction, ListedGuild};
use abby_bot::setup::{commands_to_register, roles_transition, settings_confirmation, RolesTransition};

#[test]
fn replies_to_messages() {
    assert!(handler(true, "Borger!", 0).unwrap().is_empty());
    assert_eq!(handler(false, "Borger!", 0).unwrap(), vec!["It is now 7:00 PM in Borger, Texas."]);
    assert_eq!(handler(false, "I am a carnivore", 0).unwrap(), vec!["https://i.imgur.com/59urJXr.png"]);
    assert!(handler(false, "burgers are food", 0).unwrap().is_empty());
    assert_eq!(handler(false, "a BURGER for the herbivore", 3600).unwrap().len(), 2);
    assert_eq!(handler(false, "a burger", 3600).unwrap(), vec!["It is now 8:00 PM in Borger, Texas."]);
    assert_eq!(handler(false, "Borger!", -3600).unwrap(), vec!["It is now 6:00 PM in Borger, Texas."]);
}

#[test]
fn guild_events() {
    assert!(marked_new(Some(true)));
    assert!(!marked_new(Some(false)));
    assert!(!marked_new(None));
    assert!(left_server(false));
    assert!(!left_server(true));
    assert!(listens_to(1, 2, true));
    assert!(!listens_to(2, 2, true));
    assert!(!listens_to(1, 2, false));
}

#[test]
fn login_purge() {
    let guilds = vec![
        ListedGuild { id: 1, unavailable: false },
        ListedGuild { id: 2, unavailable: true },
        ListedGuild { id: 3, unavailable: true },
    ];
    let actions = ready_actions(&guilds, &vec![3]);
    assert!(actions[0] == GuildAction::Leave(1));
    assert!(actions[1] == GuildAction::Join(2));
    assert!(actions[2] == GuildAction::Nothing);
    assert_eq!(purge_list(&vec![1, 2, 3, 4], &vec![2, 4]), vec![1, 3]);
}

#[test]
fn commands_by_feature() {
    assert_eq!(global_commands(), vec![BotCommand::Help, BotCommand::About, BotCommand::Setup]);
    assert_eq!(admin_commands(), vec![BotCommand::Snap, BotCommand::Rewind]);
    assert_eq!(role_commands(), vec![BotCommand::Rolelist]);
    assert_eq!(unserious_commands(), vec![BotCommand::Bottomify]);
    let all_on = GuildSettings { unserious: true, admin: true, messages: true, roles: true, roles_channel: None };
    let cmds = commands_to_register(&all_on);
    assert!(cmds.contains(&BotCommand::Snap));
    assert!(cmds.contains(&BotCommand::Rolelist));
    assert!(cmds.contains(&BotCommand::Bottomify));
    let none = GuildSettings { unserious: false, admin: false, messages: false, roles: false, roles_channel: None };
    assert!(commands_to_register(&none).is_empty());
    assert_eq!(commands_to_register(&all_on).len(), 5);
}

#[test]
fn roles_switch() {
    assert_eq!(roles_transition(false, true), RolesTransition::Enabled);
    assert_eq!(roles_transition(true, true), RolesTransition::Kept);
    assert_eq!(roles_transition(true, false), RolesTransition::Disabled);
    assert_eq!(roles_transition(false, false), RolesTransition::Off);
}

#[test]
fn settings_confirmation_lists_every_switch() {
    let s = GuildSettings { unserious: true, admin: false, messages: true, roles: false, roles_channel: None };
    let e = settings_confirmation(&s);
    let fields: Vec<(&str, &str)> = e.fields.iter().map(|f| (f.name.as_str(), f.value.as_str())).collect();
    assert_eq!(
        fields,
        vec![("Admin", "Disabled"), ("Unserious", "Enabled"), ("Messages", "Enabled"), ("Roles", "Disabled")]
    );
    assert_eq!(e.description.as_deref(), Some("Your new settings are:"));
}

#[test]
fn settings_menu_reads_back() {
    let s = GuildSettings { unserious: true, admin: false, messages: true, roles: false, roles_channel: Some(4) };
    let opts = s.as_selectmenuoptions();
    let labels: Vec<&str> = opts.iter().map(|o| o.label.as_str()).collect();
    assert_eq!(labels, vec!["Admin", "Unserious", "Messages", "Roles"]);
    let values: Vec<String> = opts.iter().filter(|o| o.default_selected).map(|o| o.value.clone()).collect();
    assert_eq!(values, vec!["enable_unserious", "enable_messages"]);
    let back = GuildSettings::from_selection(&values, Some(4));
    assert!(back.unserious && back.messages && !back.admin && !back.roles);
    assert_eq!(back.roles_channel, Some(4));
}
