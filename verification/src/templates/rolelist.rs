//! The message of a role list: an embed with the roles and their holder
//! counts, and the buttons to choose or modify roles.

use vstd::prelude::*;
use crate::embed::{Embed, EmbedView, EmbedFieldView, Button, ButtonView, ButtonStyle, rgb, info_color};
use crate::error::BotError;
use crate::roles::{RoleVitals, UserCount};
use crate::text::{concat, decimal, trim_end_matches, trim_end_spec, u8_to_decimal};

verus! {

/// Each line followed by a newline.
pub open spec fn lines_spec(lines: Seq<Seq<char>>) -> Seq<char>
    decreases lines.len(),
{
    if lines.len() == 0 {
        Seq::empty()
    } else {
        lines_spec(lines.drop_last()) + lines.last() + "\n"@
    }
}

/// The role names of a role list.
pub open spec fn role_names(roles: Seq<RoleVitals>) -> Seq<Seq<char>> {
    roles.map_values(|r: RoleVitals| r.name@)
}

/// The holder count of a role as text (zero while it is being counted).
pub open spec fn count_text(r: RoleVitals) -> Seq<char> {
    match r.users {
        UserCount::Calculated(v) => decimal(v as nat),
        UserCount::Working(_) => Seq::empty(),
    }
}

/// Whether every holder count of the list is known.
pub open spec fn all_counted(roles: Seq<RoleVitals>) -> bool {
    forall|k: int| 0 <= k < roles.len() ==> (#[trigger] roles[k]).users is Calculated
}

/// The embed of a role list: the group as title and two inline columns,
/// role names and holder counts, one line per role.
pub open spec fn rolelist_view(group: Seq<char>, roles: Seq<RoleVitals>, color: u32) -> EmbedView {
    EmbedView {
        title: Some(group),
        description: None,
        color: Some(color),
        footer: None,
        fields: seq![
            EmbedFieldView { name: "Name"@, value: trim_end_spec(lines_spec(role_names(roles)), '\n'), inline: true },
            EmbedFieldView {
                name: "Users"@,
                value: trim_end_spec(lines_spec(roles.map_values(|r: RoleVitals| count_text(r))), '\n'),
                inline: true,
            },
        ],
    }
}

/// Builds the embed of a role list with the given colour; fails with
/// `UserCountNotCalculated` while some holder count is being worked out.
pub fn rolelist_embed_colored(group: &str, role_list: &Vec<RoleVitals>, color: u32) -> (res: Result<Embed, BotError>)
    ensures
        all_counted(role_list@) ==> (res matches Ok(e) && e@ == rolelist_view(group@, role_list@, color)),
        !all_counted(role_list@) ==> res matches Err(BotError::UserCountNotCalculated),
{
    let mut name_str = String::new();
    let mut user_str = String::new();
    let mut i: usize = 0;
    let ghost names = role_names(role_list@);
    let ghost counts = role_list@.map_values(|r: RoleVitals| count_text(r));
    assert(names.take(0) =~= Seq::<Seq<char>>::empty());
    assert(counts.take(0) =~= Seq::<Seq<char>>::empty());
    while i < role_list.len()
        invariant
            i <= role_list@.len(),
            names == role_names(role_list@),
            counts == role_list@.map_values(|r: RoleVitals| count_text(r)),
            all_counted(role_list@.take(i as int)),
            name_str@ == lines_spec(names.take(i as int)),
            user_str@ == lines_spec(counts.take(i as int)),
        decreases role_list@.len() - i,
    {
        let r = &role_list[i];
        let count = match r.users.get() {
            Ok(v) => v,
            Err(e) => {
                assert(!all_counted(role_list@)) by {
                    assert(!(role_list@[i as int].users is Calculated));
                }
                return Err(e);
            },
        };
        assert(names.take(i + 1).drop_last() =~= names.take(i as int));
        assert(counts.take(i + 1).drop_last() =~= counts.take(i as int));
        let line = concat(r.name.as_str(), "\n");
        name_str = concat(name_str.as_str(), line.as_str());
        let digits = u8_to_decimal(count);
        let line = concat(digits.as_str(), "\n");
        user_str = concat(user_str.as_str(), line.as_str());
        assert(all_counted(role_list@.take(i + 1))) by {
            assert forall|k: int| 0 <= k < i + 1 implies (#[trigger] role_list@.take(i + 1)[k]).users is Calculated by {
                if k < i {
                    assert(role_list@.take(i as int)[k] == role_list@.take(i + 1)[k]);
                }
            }
        }
        i = i + 1;
    }
    assert(names.take(i as int) =~= names);
    assert(counts.take(i as int) =~= counts);
    assert(role_list@.take(i as int) =~= role_list@);
    let name_str = trim_end_matches(name_str.as_str(), '\n');
    let user_str = trim_end_matches(user_str.as_str(), '\n');
    let e = Embed::new().field(String::from_str("Name"), name_str, true).field(
        String::from_str("Users"),
        user_str,
        true,
    );
    let mut e = e;
    e.title = Some(String::from_str(group));
    e.color = Some(color);
    assert(e@.fields =~= rolelist_view(group@, role_list@, color).fields);
    Ok(e)
}

/// The embed of a role list in the informative colour.
pub fn embed(group: &str, role_list: &Vec<RoleVitals>) -> (res: Result<Embed, BotError>)
    ensures
        all_counted(role_list@) ==> (res matches Ok(e) && e@ == rolelist_view(group@, role_list@, rgb(102, 51, 102))),
        !all_counted(role_list@) ==> res matches Err(BotError::UserCountNotCalculated),
{
    rolelist_embed_colored(group, role_list, info_color())
}

/// The custom id of a role list button: `roles.<action>.<group>`.
pub open spec fn button_id(action: Seq<char>, group: Seq<char>) -> Seq<char> {
    "roles."@ + action + "."@ + group
}

/// The two buttons of a role list: "Choose" and "Modify".
pub open spec fn components_view(group: Seq<char>) -> Seq<ButtonView> {
    seq![
        ButtonView { custom_id: "roles.pick."@ + group, label: "Choose"@, style: ButtonStyle::Primary },
        ButtonView { custom_id: "roles.edit."@ + group, label: "Modify"@, style: ButtonStyle::Danger },
    ]
}

/// The buttons of the role list of `group`.
pub fn components(group: &str) -> (res: Vec<Button>)
    ensures
        res@.map_values(|b: Button| b@) == components_view(group@),
{
    let mut row: Vec<Button> = Vec::new();
    row.push(
        Button { custom_id: concat("roles.pick.", group), label: String::from_str("Choose"), style: ButtonStyle::Primary },
    );
    row.push(
        Button { custom_id: concat("roles.edit.", group), label: String::from_str("Modify"), style: ButtonStyle::Danger },
    );
    assert(row@.map_values(|b: Button| b@) =~= components_view(group@));
    row
}

} // verus!
