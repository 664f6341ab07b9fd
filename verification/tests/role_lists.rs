use abby_bot::error::BotError;
use abby_bot::interaction::{edit_menu, pick_menu, route_component, settle_changes, ComponentRoute, RolesAction};
use abby_bot::rolelist::{
    autocomplete_groups, creation_channel, deletion_reason, list_created, list_deleted, lists_channel,
    selected_vitals, selection_menu, selection_prompt, undeletable_list_warning,
};
use abby_bot::roles::{
    parse_role_id, role_changes, role_filter, MemberInfo, RoleChange, RoleInfo, RoleVitals, UserCount,
};

fn role(id: u64, name: &str, permissions: u64) -> RoleInfo {
    RoleInfo { id, name: String::from(name), permissions }
}

fn server_roles() -> Vec<RoleInfo> {
    vec![
        role(2, "beta", 0),
        role(3, "Alpha", 1 << 10),
        role(4, "Mods", 1 << 28),
        role(5, "@everyone", 0),
        role(6, "Admins", 1 << 3),
    ]
}

fn members() -> Vec<MemberInfo> {
    vec![
        MemberInfo { user_id: 10, roles: vec![2, 3] },
        MemberInfo { user_id: 11, roles: vec![3] },
        MemberInfo { user_id: 12, roles: vec![] },
    ]
}

fn count(u: &UserCount) -> (bool, u8) {
    match u {
        UserCount::Working(v) => (false, *v),
        UserCount::Calculated(v) => (true, *v),
    }
}

#[test]
fn filter_keeps_plain_roles_only() {
    assert!(role_filter(&role(1, "Member", 0)));
    assert!(role_filter(&role(1, "Member", (1 << 10) | (1 << 11))));
    assert!(!role_filter(&role(1, "@everyone", 0)));
    assert!(!role_filter(&role(1, "Admin", 1 << 3)));
    assert!(!role_filter(&role(1, "Threads", 1 << 34)));
    assert!(!role_filter(&role(1, "Expressions", 1 << 30)));
}

#[test]
fn groups_complete_by_prefix() {
    let groups = vec![String::from("Colors"), String::from("colours"), String::from("Games"), String::from("Col")];
    assert_eq!(autocomplete_groups(&groups, "Col"), vec!["Colors", "Col"]);
    assert_eq!(autocomplete_groups(&groups, ""), groups);
    assert!(autocomplete_groups(&groups, "x").is_empty());
}

#[test]
fn channels_for_lists() {
    assert_eq!(creation_channel(Some(9), true).unwrap(), 9);
    assert!(matches!(creation_channel(Some(9), false), Err(BotError::ChannelInaccessable)));
    assert!(matches!(creation_channel(None, true), Err(BotError::RolesChannelUnset)));
    assert_eq!(lists_channel(Some(4)).unwrap(), 4);
    assert!(matches!(lists_channel(None), Err(BotError::RolesChannelUnset)));
}

#[test]
fn creation_menu_offers_assignable_roles_by_name() {
    let menu = selection_menu(&server_roles());
    assert_eq!(menu.custom_id, "rolelist.new");
    assert_eq!(menu.placeholder.as_deref(), Some("Roles"));
    assert_eq!(menu.min_values, Some(1));
    assert_eq!(menu.max_values, Some(2));
    let labels: Vec<&str> = menu.options.iter().map(|o| o.label.as_str()).collect();
    let values: Vec<&str> = menu.options.iter().map(|o| o.value.as_str()).collect();
    assert_eq!(labels, vec!["Alpha", "beta"]);
    assert_eq!(values, vec!["3", "2"]);
    assert!(menu.options.iter().all(|o| !o.default_selected));
    for o in &menu.options {
        assert!(parse_role_id(&o.value).is_some());
    }
    let prompt = selection_prompt();
    assert_eq!(prompt.title, None);
    assert_eq!(
        prompt.description.as_deref(),
        Some("Please select a set of roles for the group below. Note that roles with permissions to modify the server are not available.")
    );
}

#[test]
fn selected_roles_are_counted() {
    let values = vec![String::from("3"), String::from("2")];
    let vs = selected_vitals(&values, &server_roles(), &members()).expect("known roles");
    assert_eq!(vs.len(), 2);
    assert_eq!(vs[0].id, 3);
    assert_eq!(vs[0].name, "Alpha");
    assert_eq!(count(&vs[0].users), (false, 2));
    assert_eq!(vs[1].id, 2);
    assert_eq!(count(&vs[1].users), (false, 1));
    assert!(selected_vitals(&vec![String::from("x")], &server_roles(), &members()).is_none());
    assert!(selected_vitals(&vec![String::from("99")], &server_roles(), &members()).is_none());
    assert!(selected_vitals(&vec![String::from("0")], &server_roles(), &members()).is_none());
    assert!(selected_vitals(&Vec::new(), &server_roles(), &members()).unwrap().is_empty());
}

#[test]
fn list_texts() {
    assert_eq!(
        list_created("Colors").description.as_deref(),
        Some("Role list for group \"Colors\" has been created.")
    );
    assert_eq!(list_deleted("Colors").description.as_deref(), Some("Role list \"Colors\" has been deleted."));
    assert_eq!(deletion_reason("Colors"), "Deleting Role List \"Colors\"");
    assert_eq!(
        undeletable_list_warning("Colors").description.as_deref(),
        Some("Either can't find or can't delete the message for the role list \"Colors\". Entries will be removed from the database, but the message will need to be deleted manually.")
    );
}

#[test]
fn buttons_route_back_to_their_list() {
    match route_component("roles.pick.Colors", true) {
        ComponentRoute::Roles { group, action } => {
            assert_eq!(group, "Colors");
            assert!(matches!(action, RolesAction::Pick));
        }
        _ => panic!("expected a roles route"),
    }
    match route_component("roles.edit.Colors", true) {
        ComponentRoute::Roles { action, .. } => assert!(matches!(action, RolesAction::Edit)),
        _ => panic!("expected a roles route"),
    }
    assert!(matches!(route_component("roles.pick.Colors", false), ComponentRoute::Ignore));
    assert!(matches!(route_component("other.pick.Colors", true), ComponentRoute::Ignore));
    assert!(matches!(route_component("", true), ComponentRoute::Malformed));
    assert!(matches!(route_component("roles", true), ComponentRoute::Malformed));
    match route_component("roles.Colors", true) {
        ComponentRoute::Roles { action, .. } => assert!(matches!(action, RolesAction::Missing)),
        _ => panic!("expected a roles route"),
    }
}

fn vitals(id: u64, name: &str, users: UserCount) -> RoleVitals {
    RoleVitals { id, name: String::from(name), users }
}

#[test]
fn picking_menu_preselects_held_roles() {
    let list = vec![vitals(2, "beta", UserCount::Working(1)), vitals(3, "Alpha", UserCount::Working(2))];
    let menu = pick_menu(&list, &vec![3]);
    assert_eq!(menu.custom_id, "choose_roles");
    assert_eq!(menu.placeholder.as_deref(), Some("Select a set of roles."));
    assert_eq!(menu.min_values, Some(0));
    assert_eq!(menu.max_values, Some(2));
    let flags: Vec<bool> = menu.options.iter().map(|o| o.default_selected).collect();
    assert_eq!(flags, vec![false, true]);
}

#[test]
fn editing_menu_preselects_the_list() {
    let menu = edit_menu(&server_roles(), &vec![2]);
    assert_eq!(menu.custom_id, "rolelist.edit");
    assert_eq!(menu.min_values, Some(1));
    assert_eq!(menu.max_values, Some(2));
    let picked: Vec<(&str, bool)> = menu.options.iter().map(|o| (o.label.as_str(), o.default_selected)).collect();
    assert_eq!(picked, vec![("Alpha", false), ("beta", true)]);
}

#[test]
fn selection_becomes_changes() {
    let list = vec![
        vitals(2, "beta", UserCount::Working(1)),
        vitals(3, "Alpha", UserCount::Working(2)),
        vitals(7, "gamma", UserCount::Working(0)),
    ];
    let changes = role_changes(&list, &vec![2, 3], &vec![3, 7]);
    assert!(matches!(changes[0], RoleChange::Remove));
    assert!(matches!(changes[1], RoleChange::Keep));
    assert!(matches!(changes[2], RoleChange::Add));
}

#[test]
fn outcomes_move_counts_and_report_failures() {
    let mut list = vec![
        vitals(2, "beta", UserCount::Working(1)),
        vitals(3, "Alpha", UserCount::Working(2)),
        vitals(7, "gamma", UserCount::Working(255)),
        vitals(8, "delta", UserCount::Calculated(4)),
    ];
    let changes = vec![RoleChange::Remove, RoleChange::Keep, RoleChange::Add, RoleChange::Add];
    let failures = vec![None, Some(String::from("ignored")), None, Some(String::from("Missing Permissions"))];
    let lines = settle_changes(&mut list, &changes, &failures);
    assert_eq!(lines, vec!["Error applying role \"delta\": Missing Permissions"]);
    assert_eq!(count(&list[0].users), (true, 0));
    assert_eq!(count(&list[1].users), (true, 2));
    assert_eq!(count(&list[2].users), (true, 255));
    assert_eq!(count(&list[3].users), (true, 4));
    assert_eq!(list[3].name, "delta");
}

#[test]
fn user_counts() {
    let mut u = UserCount::Working(3);
    assert!(matches!(u.get(), Err(BotError::UserCountNotCalculated)));
    assert!(u.increment().is_err());
    u.solve();
    assert_eq!(u.get().unwrap(), 3);
    u.solve();
    assert_eq!(u.get().unwrap(), 3);
    u.increment().unwrap();
    u.decrement().unwrap();
    assert_eq!(u.get().unwrap(), 3);
    let mut top = UserCount::Calculated(255);
    top.increment().unwrap();
    assert_eq!(top.get().unwrap(), 255);
    let mut bottom = UserCount::Calculated(0);
    bottom.decrement().unwrap();
    assert_eq!(bottom.get().unwrap(), 0);
    let mut known = UserCount::Calculated(4);
    *known.get_mut().unwrap() = 9;
    assert_eq!(known.get().unwrap(), 9);
    let mut working = UserCount::Working(1);
    assert!(matches!(working.get_mut(), Err(BotError::UserCountNotCalculated)));
}

#[test]
fn vitals_of_a_role() {
    let v = RoleVitals::new(3, &server_roles(), &members()).unwrap();
    assert_eq!(v.name, "Alpha");
    assert_eq!(count(&v.users), (false, 2));
    assert!(RoleVitals::new(42, &server_roles(), &members()).is_none());
}
