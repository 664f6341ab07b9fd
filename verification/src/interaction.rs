//! Component interactions: where a button press is routed, and the
//! decisions and texts of choosing and modifying the roles of a role list.

use vstd::prelude::*;
use crate::embed::{Embed, EmbedView, SelectMenu, SelectOption, opt_view, options_view, rgb, info_color};
use crate::error::{upper_permission_list, permission_list_upper};
use crate::roles::{
    has_permission, permission_set, MANAGE_ROLES, RoleChange, RoleInfo, RoleVitals, UserCount, assignable_options,
    assignable_options_spec, count_down, count_up, pick_options, role_option,
};
use crate::templates::rolelist::button_id;
use crate::templates::status::{status_view, title_or, success, error, warning};
use crate::text::{concat, join, join_spec, split_on, split_terminator, split_terminator_on, str_eq, lemma_split_append,
    lemma_split_without_sep};

verus! {

/// What a role list button asks for.
#[derive(PartialEq, Eq, Structural, Clone, Copy)]
pub enum RolesAction {
    /// Choose roles of the list for oneself.
    Pick,
    /// Change the roles of the list.
    Edit,
    /// The id names no action.
    Missing,
    /// The id names an action that does not exist.
    Unknown,
}

/// Where a component interaction goes.
pub enum ComponentRoute {
    /// The id has no parts at all.
    Malformed,
    /// Nothing handles this id (or the feature is off).
    Ignore,
    /// A role list button of the given group.
    Roles { group: String, action: RolesAction },
}

/// The abstract contents of a [ComponentRoute].
pub enum RouteView {
    Malformed,
    Ignore,
    Roles { group: Seq<char>, action: RolesAction },
}

impl View for ComponentRoute {
    type V = RouteView;

    open spec fn view(&self) -> RouteView {
        match self {
            ComponentRoute::Malformed => RouteView::Malformed,
            ComponentRoute::Ignore => RouteView::Ignore,
            ComponentRoute::Roles { group, action } => RouteView::Roles { group: group@, action: *action },
        }
    }
}

/// The route of a custom id: its `.`-separated parts (an empty last part
/// dropped) must start with `roles`; the last part names the group and the
/// second part the action.
pub open spec fn route_spec(id: Seq<char>, roles_enabled: bool) -> RouteView {
    let parts = split_terminator_on(id, '.');
    if parts.len() == 0 {
        RouteView::Malformed
    } else if parts[0] != "roles"@ || !roles_enabled {
        RouteView::Ignore
    } else if parts.len() == 1 {
        RouteView::Malformed
    } else {
        RouteView::Roles {
            group: parts.last(),
            action: if parts.len() == 2 {
                RolesAction::Missing
            } else if parts[1] == "pick"@ {
                RolesAction::Pick
            } else if parts[1] == "edit"@ {
                RolesAction::Edit
            } else {
                RolesAction::Unknown
            },
        }
    }
}

/// Routes a component interaction by its custom id; role list buttons are
/// only handled when the roles feature is on.
pub fn route_component(custom_id: &str, roles_enabled: bool) -> (res: ComponentRoute)
    ensures
        res@ == route_spec(custom_id@, roles_enabled),
{
    let parts = split_terminator(custom_id, '.');
    let n = parts.len();
    if n == 0 {
        return ComponentRoute::Malformed;
    }
    if !str_eq(parts[0].as_str(), "roles") || !roles_enabled {
        return ComponentRoute::Ignore;
    }
    if n == 1 {
        return ComponentRoute::Malformed;
    }
    let group = parts[n - 1].clone();
    let action = if n == 2 {
        RolesAction::Missing
    } else if str_eq(parts[1].as_str(), "pick") {
        RolesAction::Pick
    } else if str_eq(parts[1].as_str(), "edit") {
        RolesAction::Edit
    } else {
        RolesAction::Unknown
    };
    ComponentRoute::Roles { group, action }
}

/// Law of role list buttons: the id of a button routes back to the button's
/// action and group, for group names that are not empty and hold no `.`.
pub proof fn lemma_button_routes_back(action: Seq<char>, group: Seq<char>)
    requires
        action == "pick"@ || action == "edit"@,
        group.len() > 0,
        !group.contains('.'),
    ensures
        route_spec(button_id(action, group), true) == (RouteView::Roles {
            group,
            action: if action == "pick"@ {
                RolesAction::Pick
            } else {
                RolesAction::Edit
            },
        }),
{
    reveal_strlit("roles");
    reveal_strlit("roles.");
    reveal_strlit("pick");
    reveal_strlit("edit");
    reveal_strlit(".");
    let roles = "roles"@;
    assert("roles."@ =~= roles + seq!['.']);
    assert(!roles.contains('.')) by {
        assert forall|k: int| 0 <= k < roles.len() implies roles[k] != '.' by {}
    }
    assert(!action.contains('.')) by {
        assert forall|k: int| 0 <= k < action.len() implies action[k] != '.' by {}
    }
    lemma_split_without_sep(roles, '.');
    lemma_split_append(roles, '.', action);
    assert(roles + seq!['.'] + action =~= "roles."@ + action);
    lemma_split_append("roles."@ + action, '.', group);
    assert(button_id(action, group) =~= ("roles."@ + action) + seq!['.'] + group);
    let parts = split_on(button_id(action, group), '.');
    assert(parts =~= seq![roles, action, group]);
    assert(parts.last().len() > 0);
    assert("pick"@ != "edit"@) by {
        assert("pick"@[0] != "edit"@[0]);
    }
}

/// Whether a member is refused the "Choose" button: members who can manage
/// roles assign roles themselves.
pub fn pick_refused(member_permissions: u64) -> (res: bool)
    ensures
        res == has_permission(member_permissions, MANAGE_ROLES),
{
    permission_set(member_permissions, MANAGE_ROLES)
}

/// Whether a member is refused the "Modify" button: only members who can
/// manage roles may change a list.
pub fn edit_refused(member_permissions: u64) -> (res: bool)
    ensures
        res == !has_permission(member_permissions, MANAGE_ROLES),
{
    !permission_set(member_permissions, MANAGE_ROLES)
}

/// Text shown to members who can manage roles when they press "Choose".
pub open spec fn pick_refusal_text() -> Seq<char> {
    "For security reasons the role management feature only works on users without role management permissions. As you have these permissions simply assign them yourself. If you can't assign them to yourself I can't assign them to anyone regardless of rank."@
}

/// The warning shown to members who can manage roles when they press
/// "Choose".
pub fn pick_refusal() -> (res: Embed)
    ensures
        res@ == status_view(":warning:"@, "Warning"@, pick_refusal_text(), rgb(253, 253, 150)),
{
    warning(
        None,
        String::from_str(
            "For security reasons the role management feature only works on users without role management permissions. As you have these permissions simply assign them yourself. If you can't assign them to yourself I can't assign them to anyone regardless of rank.",
        ),
    )
}

/// Text listing the permissions the "Modify" button needs.
pub open spec fn edit_refusal_text() -> Seq<char> {
    "The following permissions are required to use that component:\n```"@ + upper_permission_list(
        MANAGE_ROLES,
        "\n"@,
    ) + "```"@
}

/// The warning shown to members without role management permissions when
/// they press "Modify".
pub fn edit_refusal() -> (res: Embed)
    ensures
        res@ == status_view(":warning:"@, "Warning"@, edit_refusal_text(), rgb(253, 253, 150)),
{
    let names = permission_list_upper(MANAGE_ROLES, "\n");
    let a = concat("The following permissions are required to use that component:\n```", names.as_str());
    warning(None, concat(a.as_str(), "```"))
}

/// The prompt above a menu, in the informative colour.
pub open spec fn prompt_view(text: Seq<char>) -> EmbedView {
    EmbedView {
        title: None,
        description: Some(text),
        color: Some(rgb(102, 51, 102)),
        footer: None,
        fields: Seq::empty(),
    }
}

/// The prompt of the role picking menu.
pub fn pick_prompt() -> (res: Embed)
    ensures
        res@ == prompt_view("Pick roles from the list below. Roles you already have will be preselected."@),
{
    let mut e = Embed::new();
    e.color = Some(info_color());
    e.description = Some(String::from_str("Pick roles from the list below. Roles you already have will be preselected."));
    e
}

/// The prompt of the menus that choose the roles of a list.
pub fn list_prompt() -> (res: Embed)
    ensures
        res@ == prompt_view(
            "Please select a set of roles for the group below. Note that roles with permissions to modify the server are not available."@,
        ),
{
    let mut e = Embed::new();
    e.color = Some(info_color());
    e.description = Some(
        String::from_str(
            "Please select a set of roles for the group below. Note that roles with permissions to modify the server are not available.",
        ),
    );
    e
}

/// The line reporting a role that could not be given.
pub fn apply_error_line(role_name: &str, reason: &str) -> (res: String)
    ensures
        res@ == "Error applying role \""@ + role_name@ + "\": "@ + reason@,
{
    let a = concat("Error applying role \"", role_name);
    let b = concat(a.as_str(), "\": ");
    concat(b.as_str(), reason)
}

/// The line reporting a role that could not be taken away.
pub fn remove_error_line(role_name: &str, reason: &str) -> (res: String)
    ensures
        res@ == "Error removing role \""@ + role_name@ + "\": "@ + reason@,
{
    let a = concat("Error removing role \"", role_name);
    let b = concat(a.as_str(), "\": ");
    concat(b.as_str(), reason)
}

/// The answer once the picked roles were applied: success when every change
/// worked, otherwise an error listing the failures one per line.
pub fn pick_outcome(errors: &Vec<String>) -> (res: Embed)
    ensures
        errors@.len() == 0 ==> res@ == status_view(
            ":white_check_mark:"@,
            "Success"@,
            "Roles selected have been successfully applied to your server profile."@,
            rgb(102, 51, 102),
        ),
        errors@.len() > 0 ==> res@ == status_view(
            ":exclamation:"@,
            "Error"@,
            "An error has been encountered on at least one role. Please contact the server administrator.\n\n"@
                + join_spec(errors.deep_view(), "\n"@),
            rgb(178, 34, 34),
        ),
{
    if errors.len() == 0 {
        success(None, String::from_str("Roles selected have been successfully applied to your server profile."))
    } else {
        let list = join(errors, "\n");
        error(
            None,
            concat(
                "An error has been encountered on at least one role. Please contact the server administrator.\n\n",
                list.as_str(),
            ),
        )
    }
}

/// The answer once the roles of a list were changed.
pub fn edit_outcome(group_name: &str) -> (res: Embed)
    ensures
        res@ == status_view(
            ":white_check_mark:"@,
            "Success"@,
            "Editing of group "@ + group_name@ + " has been completed. The original message should update shortly."@,
            rgb(102, 51, 102),
        ),
{
    let a = concat("Editing of group ", group_name);
    success(None, concat(a.as_str(), " has been completed. The original message should update shortly."))
}


/// The menu for picking roles of a list: the list's roles in the given
/// order, those the member holds preselected, any number of them chosen
/// (the maximum is their number modulo 256, as a `u8` conversion gives it).
pub fn pick_menu(roles: &Vec<RoleVitals>, member_roles: &Vec<u64>) -> (res: SelectMenu)
    ensures
        res@.custom_id == "choose_roles"@,
        res@.placeholder == Some("Select a set of roles."@),
        res@.min_values == Some(0u8),
        res@.max_values == Some((roles@.len() % 256) as u8),
        res@.options == roles@.map_values(
            |r: RoleVitals| role_option(r.name@, r.id, member_roles@.contains(r.id)),
        ),
{
    let options = pick_options(roles, member_roles);
    let n = roles.len();
    let max: u8 = (n % 256) as u8;
    SelectMenu {
        custom_id: String::from_str("choose_roles"),
        options,
        placeholder: Some(String::from_str("Select a set of roles.")),
        min_values: Some(0),
        max_values: Some(max),
    }
}

/// The menu for changing the roles of a list: the assignable roles of the
/// server by lower-cased name, those of the list preselected, at least one
/// chosen (the maximum is their number modulo 256).
pub fn edit_menu(roles: &Vec<RoleInfo>, group_roles: &Vec<u64>) -> (res: SelectMenu)
    ensures
        res@.custom_id == "rolelist.edit"@,
        res@.placeholder == Some("Roles"@),
        res@.min_values == Some(1u8),
        res@.max_values == Some((res@.options.len() % 256) as u8),
        assignable_options_spec(roles@, group_roles@, res@.options),
{
    let options = assignable_options(roles, group_roles);
    let n = options.len();
    let max: u8 = (n % 256) as u8;
    SelectMenu {
        custom_id: String::from_str("rolelist.edit"),
        options,
        placeholder: Some(String::from_str("Roles")),
        min_values: Some(1),
        max_values: Some(max),
    }
}

/// The number a user count holds, worked out or not.
pub open spec fn count_value(u: UserCount) -> u8 {
    match u {
        UserCount::Working(v) => v,
        UserCount::Calculated(v) => v,
    }
}

/// The holder count of a role after its change was tried: one more for a
/// role given, one less for a role taken away (saturating), unchanged when
/// nothing was done or the change failed.
pub open spec fn count_after(n: u8, change: RoleChange, failed: bool) -> u8 {
    if failed {
        n
    } else {
        match change {
            RoleChange::Add => count_up(n),
            RoleChange::Remove => count_down(n),
            RoleChange::Keep => n,
        }
    }
}

/// The report line of one tried change: none when it worked or nothing
/// was tried.
pub open spec fn failure_line(name: Seq<char>, change: RoleChange, failure: Option<Seq<char>>) -> Seq<Seq<char>> {
    match failure {
        None => Seq::empty(),
        Some(reason) => match change {
            RoleChange::Add => seq!["Error applying role \""@ + name + "\": "@ + reason],
            RoleChange::Remove => seq!["Error removing role \""@ + name + "\": "@ + reason],
            RoleChange::Keep => Seq::empty(),
        },
    }
}

/// The report lines of the first `n` roles, in list order.
pub open spec fn failure_lines(
    roles: Seq<RoleVitals>,
    changes: Seq<RoleChange>,
    failures: Seq<Option<String>>,
    n: int,
) -> Seq<Seq<char>>
    decreases n,
{
    if n <= 0 {
        Seq::empty()
    } else {
        failure_lines(roles, changes, failures, n - 1) + failure_line(
            roles[n - 1].name@,
            changes[n - 1],
            opt_view(failures[n - 1]),
        )
    }
}

/// Whether `after` is `before` once its change was tried: same role, count
/// finished and moved as [count_after] says.
pub open spec fn settled(after: RoleVitals, before: RoleVitals, change: RoleChange, failed: bool) -> bool {
    &&& after.id == before.id
    &&& after.name@ == before.name@
    &&& after.users == UserCount::Calculated(count_after(count_value(before.users), change, failed))
}

/// Records the outcome of the changes a member's selection asked for: every
/// count is finished, then moved by one for each change that worked; the
/// changes that failed come back as report lines, in list order. A failure
/// reported for a role that needed no change is ignored.
pub fn settle_changes(roles: &mut Vec<RoleVitals>, changes: &Vec<RoleChange>, failures: &Vec<Option<String>>) -> (res: Vec<
    String,
>)
    requires
        changes@.len() == old(roles)@.len(),
        failures@.len() == old(roles)@.len(),
    ensures
        final(roles)@.len() == old(roles)@.len(),
        forall|k: int|
            0 <= k < old(roles)@.len() ==> settled(
                #[trigger] final(roles)@[k],
                old(roles)@[k],
                changes@[k],
                failures@[k] is Some,
            ),
        res.deep_view() == failure_lines(old(roles)@, changes@, failures@, old(roles)@.len() as int),
{
    let ghost orig = roles@;
    let mut lines: Vec<String> = Vec::new();
    let mut i: usize = 0;
    while i < roles.len()
        invariant
            roles@.len() == orig.len(),
            changes@.len() == orig.len(),
            failures@.len() == orig.len(),
            i <= orig.len(),
            forall|k: int| 0 <= k < i ==> settled(#[trigger] roles@[k], orig[k], changes@[k], failures@[k] is Some),
            forall|k: int| i <= k < orig.len() ==> #[trigger] roles@[k] == orig[k],
            lines.deep_view() == failure_lines(orig, changes@, failures@, i as int),
        decreases orig.len() - i,
    {
        let mut users = roles[i].users;
        users.solve();
        assert(users == UserCount::Calculated(count_value(orig[i as int].users)));
        let change = changes[i];
        let ghost before = lines.deep_view();
        match &failures[i] {
            None => {
                match change {
                    RoleChange::Add => {
                        let _ = users.increment();
                    },
                    RoleChange::Remove => {
                        let _ = users.decrement();
                    },
                    RoleChange::Keep => {},
                }
                assert(lines.deep_view() =~= before + failure_line(
                    orig[i as int].name@,
                    change,
                    opt_view(failures@[i as int]),
                ));
            },
            Some(reason) => {
                match change {
                    RoleChange::Add => {
                        lines.push(apply_error_line(roles[i].name.as_str(), reason.as_str()));
                    },
                    RoleChange::Remove => {
                        lines.push(remove_error_line(roles[i].name.as_str(), reason.as_str()));
                    },
                    RoleChange::Keep => {},
                }
                assert(lines.deep_view() =~= before + failure_line(
                    orig[i as int].name@,
                    change,
                    opt_view(failures@[i as int]),
                ));
            },
        }
        let id = roles[i].id;
        let name = roles[i].name.clone();
        let ghost prev = roles@;
        roles.set(i, RoleVitals { id, name, users });
        assert(settled(roles@[i as int], orig[i as int], changes@[i as int], failures@[i as int] is Some));
        assert forall|k: int| 0 <= k < i + 1 implies settled(
            #[trigger] roles@[k],
            orig[k],
            changes@[k],
            failures@[k] is Some,
        ) by {
            if k < i {
                assert(roles@[k] == prev[k]);
            }
        }
        i = i + 1;
    }
    lines
}
} // verus!
