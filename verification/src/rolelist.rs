//! The `rolelist` command: creating a list of roles for members to pick
//! from, and deleting one.

use vstd::prelude::*;
use crate::embed::{Embed, EmbedView, SelectMenu, SelectMenuView, SelectOption, SelectOptionView, rgb, info_color};
use crate::error::{BotError, debug_quoted, debug_str};
use crate::roles::{MemberInfo, RoleInfo, RoleVitals, UserCount, first_role_with, has_role, holders, role_id_spec, parse_role_id, assignable_options, assignable_options_spec};
use crate::templates::status::{status_view, success, warning};
use crate::text::{concat, starts_with};

verus! {

/// The groups offered for a partly typed name: those that begin with it,
/// in stored order.
pub open spec fn completions(groups: Seq<Seq<char>>, partial: Seq<char>) -> Seq<Seq<char>> {
    groups.filter(|g: Seq<char>| partial.is_prefix_of(g))
}

/// Completes a group name from the groups stored for the server.
pub fn autocomplete_groups(groups: &Vec<String>, partial: &str) -> (res: Vec<String>)
    ensures
        res.deep_view() == completions(groups.deep_view(), partial@),
{
    let ghost pred = |g: Seq<char>| partial@.is_prefix_of(g);
    let ghost all = groups.deep_view();
    let mut res: Vec<String> = Vec::new();
    let mut i: usize = 0;
    assert(all.take(0).filter(pred) =~= Seq::<Seq<char>>::empty()) by {
        reveal_with_fuel(Seq::<_>::filter, 1);
    }
    while i < groups.len()
        invariant
            i <= groups@.len(),
            all == groups.deep_view(),
            pred == (|g: Seq<char>| partial@.is_prefix_of(g)),
            res.deep_view() == all.take(i as int).filter(pred),
        decreases groups@.len() - i,
    {
        proof {
            reveal_with_fuel(Seq::<_>::filter, 1);
        }
        assert(all.take(i + 1).drop_last() =~= all.take(i as int));
        assert(all.take(i + 1).last() == groups@[i as int]@);
        if starts_with(groups[i].as_str(), partial) {
            let ghost before = res.deep_view();
            res.push(groups[i].clone());
            assert(res.deep_view() =~= before.push(groups@[i as int]@));
        }
        i = i + 1;
    }
    assert(all.take(i as int) =~= all);
    res
}

/// The channel a new role list is posted to: the stored roles channel,
/// when the bot can post there.
pub fn creation_channel(stored: Option<u64>, postable: bool) -> (res: Result<u64, BotError>)
    ensures
        match stored {
            None => res matches Err(BotError::RolesChannelUnset),
            Some(c) => if postable {
                res == Ok::<u64, BotError>(c)
            } else {
                res matches Err(BotError::ChannelInaccessable)
            },
        },
{
    match stored {
        Some(c) => if postable {
            Ok(c)
        } else {
            Err(BotError::ChannelInaccessable)
        },
        None => Err(BotError::RolesChannelUnset),
    }
}

/// The channel that holds the role lists of a server, needed to delete one.
pub fn lists_channel(stored: Option<u64>) -> (res: Result<u64, BotError>)
    ensures
        match stored {
            None => res matches Err(BotError::RolesChannelUnset),
            Some(c) => res == Ok::<u64, BotError>(c),
        },
{
    match stored {
        Some(c) => Ok(c),
        None => Err(BotError::RolesChannelUnset),
    }
}

/// The description of the role selection prompt.
pub open spec fn selection_prompt_text() -> Seq<char> {
    "Please select a set of roles for the group below. Note that roles with permissions to modify the server are not available."@
}

/// The embed above the role selection menu: no title, informative colour.
pub fn selection_prompt() -> (res: Embed)
    ensures
        res@ == (EmbedView {
            title: None,
            description: Some(selection_prompt_text()),
            color: Some(rgb(102, 51, 102)),
            footer: None,
            fields: Seq::empty(),
        }),
{
    let mut e = Embed::new();
    e.color = Some(info_color());
    e.description = Some(String::from_str(
        "Please select a set of roles for the group below. Note that roles with permissions to modify the server are not available.",
    ));
    e
}

/// The menu choosing the roles of a new list: the assignable roles of the
/// server by lower-cased name, at least one to be chosen and at most all of
/// them (their number taken modulo 256, as a `u8` conversion does).
pub fn selection_menu(roles: &Vec<RoleInfo>) -> (res: SelectMenu)
    ensures
        res@.custom_id == "rolelist.new"@,
        res@.placeholder == Some("Roles"@),
        res@.min_values == Some(1u8),
        res@.max_values == Some((res@.options.len() % 256) as u8),
        assignable_options_spec(roles@, Seq::empty(), res@.options),
{
    let none: Vec<u64> = Vec::new();
    let options = assignable_options(roles, &none);
    assert(none@ =~= Seq::<u64>::empty());
    let n = options.len();
    let max: u8 = (n % 256) as u8;
    SelectMenu {
        custom_id: String::from_str("rolelist.new"),
        options,
        placeholder: Some(String::from_str("Roles")),
        min_values: Some(1),
        max_values: Some(max),
    }
}

/// Whether `v` is what `RoleVitals::new` gives for this id.
pub open spec fn vitals_of(v: RoleVitals, id: u64, roles: Seq<RoleInfo>, members: Seq<MemberInfo>) -> bool {
    &&& v.id == id
    &&& v.name@ == roles[first_role_with(roles, id)].name@
    &&& v.users == UserCount::Working((holders(members, id) % 256) as u8)
}

/// Whether a selected value names a role of the server.
pub open spec fn names_role(value: Seq<char>, roles: Seq<RoleInfo>) -> bool {
    role_id_spec(value) matches Some(id) && has_role(roles, id)
}

/// The roles a member selected for a new list, in selection order; `None`
/// when a value is not a role id or names no role of the server.
pub fn selected_vitals(values: &Vec<String>, roles: &Vec<RoleInfo>, members: &Vec<MemberInfo>) -> (res: Option<
    Vec<RoleVitals>,
>)
    ensures
        res is Some <==> forall|k: int| 0 <= k < values@.len() ==> #[trigger] names_role(values@[k]@, roles@),
        res matches Some(vs) ==> vs@.len() == values@.len() && forall|k: int|
            0 <= k < values@.len() ==> (Some(#[trigger] vs@[k].id) == role_id_spec(values@[k]@) && vitals_of(vs@[k], vs@[k].id, roles@, members@)),
{
    let mut vs: Vec<RoleVitals> = Vec::new();
    let mut i: usize = 0;
    while i < values.len()
        invariant
            i <= values@.len(),
            vs@.len() == i,
            forall|k: int| 0 <= k < i ==> #[trigger] names_role(values@[k]@, roles@),
            forall|k: int|
                0 <= k < i ==> (Some(#[trigger] vs@[k].id) == role_id_spec(values@[k]@) && vitals_of(vs@[k], vs@[k].id, roles@, members@)),
        decreases values@.len() - i,
    {
        match parse_role_id(values[i].as_str()) {
            Some(id) => match RoleVitals::new(id, roles, members) {
                Some(v) => {
                    let ghost before = vs@;
                    vs.push(v);
                    assert forall|k: int|
                        0 <= k < i + 1 implies (Some(#[trigger] vs@[k].id) == role_id_spec(values@[k]@) && vitals_of(vs@[k], vs@[k].id, roles@, members@)) by {
                        if k < i {
                            assert(vs@[k] == before[k]);
                        }
                    }
                },
                None => {
                    assert(!names_role(values@[i as int]@, roles@));
                    return None;
                },
            },
            None => {
                assert(!names_role(values@[i as int]@, roles@));
                return None;
            },
        }
        i = i + 1;
    }
    Some(vs)
}

/// The success text of a new list.
pub open spec fn created_text(group: Seq<char>) -> Seq<char> {
    "Role list for group "@ + debug_quoted(group) + " has been created."@
}

/// The embed confirming that a role list was created.
pub fn list_created(group: &str) -> (res: Embed)
    ensures
        res@ == status_view(":white_check_mark:"@, "Success"@, created_text(group@), rgb(102, 51, 102)),
{
    let q = debug_str(group);
    let a = concat("Role list for group ", q.as_str());
    success(None, concat(a.as_str(), " has been created."))
}

/// The audit log reason given when the message of a list is deleted.
pub fn deletion_reason(group: &str) -> (res: String)
    ensures
        res@ == "Deleting Role List \""@ + group@ + "\""@,
{
    let a = concat("Deleting Role List \"", group);
    concat(a.as_str(), "\"")
}

/// The warning text when the message of a list cannot be deleted.
pub open spec fn undeletable_text(group: Seq<char>) -> Seq<char> {
    "Either can't find or can't delete the message for the role list "@ + debug_quoted(group)
        + ". Entries will be removed from the database, but the message will need to be deleted manually."@
}

/// The warning shown when the message of a list cannot be deleted.
pub fn undeletable_list_warning(group: &str) -> (res: Embed)
    ensures
        res@ == status_view(":warning:"@, "Warning"@, undeletable_text(group@), rgb(253, 253, 150)),
{
    let q = debug_str(group);
    let a = concat("Either can't find or can't delete the message for the role list ", q.as_str());
    warning(
        None,
        concat(a.as_str(), ". Entries will be removed from the database, but the message will need to be deleted manually."),
    )
}

/// The success text of a deleted list.
pub open spec fn deleted_text(group: Seq<char>) -> Seq<char> {
    "Role list "@ + debug_quoted(group) + " has been deleted."@
}

/// The embed confirming that a role list was deleted.
pub fn list_deleted(group: &str) -> (res: Embed)
    ensures
        res@ == status_view(":white_check_mark:"@, "Success"@, deleted_text(group@), rgb(102, 51, 102)),
{
    let q = debug_str(group);
    let a = concat("Role list ", q.as_str());
    success(None, concat(a.as_str(), " has been deleted."))
}

} // verus!
