//! Roles of a server as the role-list feature sees them: which roles may be
//! handed out, how many members hold each, and which changes a member's
//! selection asks for.

use vstd::prelude::*;
use crate::error::BotError;
use crate::embed::{SelectOption, SelectOptionView, options_view};
use crate::order::{lowercase_keys, stable_order, stable_sort_order, to_lowercase_all};
use crate::text::{decimal, lemma_parse_decimal, parse_u64_spec, parse_u64, str_eq, u64_to_decimal};

verus! {

/// `ADMINISTRATOR` permission bit.
pub const ADMINISTRATOR: u64 = 8;
/// `MANAGE_CHANNELS` permission bit.
pub const MANAGE_CHANNELS: u64 = 16;
/// `MANAGE_GUILD` permission bit.
pub const MANAGE_GUILD: u64 = 32;
/// `VIEW_CHANNEL` permission bit.
pub const VIEW_CHANNEL: u64 = 1024;
/// `SEND_MESSAGES` permission bit.
pub const SEND_MESSAGES: u64 = 2048;
/// `MANAGE_MESSAGES` permission bit.
pub const MANAGE_MESSAGES: u64 = 8192;
/// `MANAGE_NICKNAMES` permission bit.
pub const MANAGE_NICKNAMES: u64 = 134217728;
/// `MANAGE_ROLES` permission bit.
pub const MANAGE_ROLES: u64 = 268435456;
/// `MANAGE_WEBHOOKS` permission bit.
pub const MANAGE_WEBHOOKS: u64 = 536870912;
/// `MANAGE_GUILD_EXPRESSIONS` permission bit (formerly
/// `MANAGE_EMOJIS_AND_STICKERS`).
pub const MANAGE_GUILD_EXPRESSIONS: u64 = 1073741824;
/// `MANAGE_EVENTS` permission bit.
pub const MANAGE_EVENTS: u64 = 8589934592;
/// `MANAGE_THREADS` permission bit.
pub const MANAGE_THREADS: u64 = 17179869184;

/// A role of a server.
pub struct RoleInfo {
    pub id: u64,
    pub name: String,
    /// The role's permission set as bits.
    pub permissions: u64,
}

/// A member of a server, by the roles they hold.
pub struct MemberInfo {
    pub user_id: u64,
    pub roles: Vec<u64>,
}

/// Whether the permission set holds every bit of `p`, as
/// `Permissions::contains` tells.
pub open spec fn has_permission(perms: u64, p: u64) -> bool {
    perms & p == p
}

/// Tests one permission of a permission set.
pub fn permission_set(perms: u64, p: u64) -> (res: bool)
    ensures
        res == has_permission(perms, p),
{
    perms & p == p
}

/// Whether a role carries any permission that lets its holder modify the
/// server.
pub open spec fn is_moderation_role(perms: u64) -> bool {
    ||| has_permission(perms, ADMINISTRATOR)
    ||| has_permission(perms, MANAGE_CHANNELS)
    ||| has_permission(perms, MANAGE_GUILD_EXPRESSIONS)
    ||| has_permission(perms, MANAGE_EVENTS)
    ||| has_permission(perms, MANAGE_GUILD)
    ||| has_permission(perms, MANAGE_MESSAGES)
    ||| has_permission(perms, MANAGE_NICKNAMES)
    ||| has_permission(perms, MANAGE_ROLES)
    ||| has_permission(perms, MANAGE_THREADS)
    ||| has_permission(perms, MANAGE_WEBHOOKS)
}

/// Whether the bot may hand the role out: never a moderation role, never
/// `@everyone`.
pub open spec fn assignable(name: Seq<char>, perms: u64) -> bool {
    !is_moderation_role(perms) && name != "@everyone"@
}

fn moderation_role(perms: u64) -> (res: bool)
    ensures
        res == is_moderation_role(perms),
{
    permission_set(perms, ADMINISTRATOR) || permission_set(perms, MANAGE_CHANNELS)
        || permission_set(perms, MANAGE_GUILD_EXPRESSIONS) || permission_set(perms, MANAGE_EVENTS)
        || permission_set(perms, MANAGE_GUILD) || permission_set(perms, MANAGE_MESSAGES)
        || permission_set(perms, MANAGE_NICKNAMES) || permission_set(perms, MANAGE_ROLES)
        || permission_set(perms, MANAGE_THREADS) || permission_set(perms, MANAGE_WEBHOOKS)
}

/// The bot never assigns moderation roles and never shows `@everyone`.
/// Returns `true` when the role is safe to assign.
pub fn role_filter(role: &RoleInfo) -> (res: bool)
    ensures
        res == assignable(role.name@, role.permissions),
{
    if moderation_role(role.permissions) {
        return false;
    }
    if str_eq(role.name.as_str(), "@everyone") {
        return false;
    }
    true
}

/// Number of members holding the role with the given id.
pub open spec fn holders(members: Seq<MemberInfo>, id: u64) -> nat
    decreases members.len(),
{
    if members.len() == 0 {
        0
    } else {
        holders(members.drop_last(), id) + (if members.last().roles@.contains(id) {
            1nat
        } else {
            0nat
        })
    }
}

/// Whether the id occurs in the list.
pub fn contains_id(ids: &Vec<u64>, id: u64) -> (res: bool)
    ensures
        res == ids@.contains(id),
{
    let mut i: usize = 0;
    while i < ids.len()
        invariant
            i <= ids@.len(),
            forall|j: int| 0 <= j < i ==> ids@[j] != id,
        decreases ids@.len() - i,
    {
        if ids[i] == id {
            return true;
        }
        i = i + 1;
    }
    false
}

/// How many users hold a role: still being counted, or known.
#[derive(Clone, Copy)]
pub enum UserCount {
    /// The count is being worked out; it will come out as the value held.
    Working(u8),
    /// The count is known.
    Calculated(u8),
}

/// A count after one more holder, never above 255.
pub open spec fn count_up(v: u8) -> u8 {
    if v == 255 { 255u8 } else { (v + 1) as u8 }
}

/// A count after one holder less, never below zero.
pub open spec fn count_down(v: u8) -> u8 {
    if v == 0 { 0u8 } else { (v - 1) as u8 }
}

/// A user count once it is finished.
pub open spec fn solved(u: UserCount) -> UserCount {
    match u {
        UserCount::Working(v) => UserCount::Calculated(v),
        UserCount::Calculated(v) => UserCount::Calculated(v),
    }
}

impl UserCount {
    /// The count, or `UserCountNotCalculated` while it is being worked out.
    pub fn get(&self) -> (res: Result<u8, BotError>)
        ensures
            match *self {
                UserCount::Calculated(v) => res == Ok::<u8, BotError>(v),
                UserCount::Working(_) => res matches Err(BotError::UserCountNotCalculated),
            },
    {
        match self {
            UserCount::Calculated(v) => Ok(*v),
            UserCount::Working(_) => Err(BotError::UserCountNotCalculated),
        }
    }

    /// A handle on the count to change it, or `UserCountNotCalculated`
    /// while it is being worked out.
    pub fn get_mut(&mut self) -> (res: Result<&mut u8, BotError>)
        ensures
            match *old(self) {
                UserCount::Calculated(v) => res matches Ok(r) && *r == v && *final(self) == UserCount::Calculated(
                    *final(r),
                ),
                UserCount::Working(_) => (res matches Err(BotError::UserCountNotCalculated)) && *final(self)
                    == *old(self),
            },
    {
        match self {
            UserCount::Calculated(v) => Ok(v),
            UserCount::Working(_) => Err(BotError::UserCountNotCalculated),
        }
    }

    /// Finishes the count; a count that is known already stays as it is.
    pub fn solve(&mut self)
        ensures
            *final(self) == solved(*old(self)),
    {
        if let UserCount::Working(v) = self {
            *self = UserCount::Calculated(*v);
        }
    }

    /// One holder less, never below zero; fails while the count is worked out.
    pub fn decrement(&mut self) -> (res: Result<(), BotError>)
        ensures
            match *old(self) {
                UserCount::Calculated(v) => res is Ok && *final(self) == UserCount::Calculated(count_down(v)),
                UserCount::Working(_) => (res matches Err(BotError::UserCountNotCalculated))
                    && *final(self) == *old(self),
            },
    {
        let v = self.get_mut()?;
        *v = v.saturating_sub(1);
        Ok(())
    }

    /// One holder more, never above 255; fails while the count is worked out.
    pub fn increment(&mut self) -> (res: Result<(), BotError>)
        ensures
            match *old(self) {
                UserCount::Calculated(v) => res is Ok && *final(self) == UserCount::Calculated(count_up(v)),
                UserCount::Working(_) => (res matches Err(BotError::UserCountNotCalculated))
                    && *final(self) == *old(self),
            },
    {
        let v = self.get_mut()?;
        *v = v.saturating_add(1);
        Ok(())
    }
}

/// Law of user counts: finishing a count twice is finishing it once, and
/// finishing keeps the number.
pub proof fn lemma_solve_idempotent(u: UserCount)
    ensures
        solved(solved(u)) == solved(u),
        solved(u) matches UserCount::Calculated(v) && v == match u {
            UserCount::Working(w) => w,
            UserCount::Calculated(w) => w,
        },
{
}

/// Law of user counts: taking a holder away undoes adding one below the
/// ceiling of 255, and adding one undoes taking one away above zero.
pub proof fn lemma_count_steps_undo(v: u8)
    ensures
        v < 255 ==> count_down(count_up(v)) == v,
        v > 0 ==> count_up(count_down(v)) == v,
{
}

/// A role of a role list with what its embed shows.
pub struct RoleVitals {
    pub id: u64,
    pub name: String,
    pub users: UserCount,
}

/// Index of the first role with the given id.
pub open spec fn first_role_with(roles: Seq<RoleInfo>, id: u64) -> int {
    choose|k: int| 0 <= k < roles.len() && roles[k].id == id && forall|j: int| 0 <= j < k ==> roles[j].id != id
}

/// Whether some role has the given id.
pub open spec fn has_role(roles: Seq<RoleInfo>, id: u64) -> bool {
    exists|k: int| 0 <= k < roles.len() && roles[k].id == id
}

impl RoleVitals {
    /// Looks up the role's name and starts counting its holders; `None`
    /// when the server has no role with this id. The count is kept modulo
    /// 256, as a `u8` conversion of the count does.
    pub fn new(id: u64, roles: &Vec<RoleInfo>, members: &Vec<MemberInfo>) -> (res: Option<RoleVitals>)
        ensures
            res is Some <==> has_role(roles@, id),
            res matches Some(v) ==> {
                &&& v.id == id
                &&& v.name@ == roles@[first_role_with(roles@, id)].name@
                &&& v.users == UserCount::Working((holders(members@, id) % 256) as u8)
            },
    {
        let mut count: u8 = 0;
        let mut i: usize = 0;
        assert(members@.take(0) =~= Seq::<MemberInfo>::empty());
        while i < members.len()
            invariant
                i <= members@.len(),
                count as nat == holders(members@.take(i as int), id) % 256,
            decreases members@.len() - i,
        {
            assert(members@.take(i + 1).drop_last() =~= members@.take(i as int));
            if contains_id(&members[i].roles, id) {
                count = if count == 255 { 0 } else { count + 1 };
            }
            i = i + 1;
        }
        assert(members@.take(members@.len() as int) =~= members@);
        let mut k: usize = 0;
        while k < roles.len()
            invariant
                k <= roles@.len(),
                count as nat == holders(members@, id) % 256,
                forall|j: int| 0 <= j < k ==> roles@[j].id != id,
            decreases roles@.len() - k,
        {
            if roles[k].id == id {
                let name = roles[k].name.clone();
                assert(first_role_with(roles@, id) == k as int) by {
                    let f = first_role_with(roles@, id);
                    assert(0 <= f < roles@.len() && roles@[f].id == id && forall|j: int|
                        0 <= j < f ==> roles@[j].id != id);
                    if f < k {
                    } else if f > k {
                        assert(roles@[k as int].id == id);
                    }
                }
                return Some(RoleVitals { id, name, users: UserCount::Working(count) });
            }
            k = k + 1;
        }
        None
    }
}

/// The names of a list of roles.
pub open spec fn vitals_names(roles: Seq<RoleVitals>) -> Seq<Seq<char>> {
    roles.map_values(|r: RoleVitals| r.name@)
}

/// `sorted` holds the roles of `roles` ordered by lower-cased name, equal
/// names keeping their order.
pub open spec fn sorted_by_name(roles: Seq<RoleVitals>, sorted: Seq<RoleVitals>) -> bool {
    exists|order: Seq<usize>|
        stable_order(lowercase_keys(vitals_names(roles)), order) && sorted.len() == order.len() && forall|k: int|
            0 <= k < order.len() ==> #[trigger] sorted[k] == roles[order[k] as int]
}

/// Copies the names of a list of roles.
fn collect_names(roles: &Vec<RoleVitals>) -> (res: Vec<String>)
    ensures
        res.deep_view() == vitals_names(roles@),
{
    let mut names: Vec<String> = Vec::new();
    let mut i: usize = 0;
    while i < roles.len()
        invariant
            i <= roles@.len(),
            names.deep_view() =~= vitals_names(roles@).take(i as int),
        decreases roles@.len() - i,
    {
        let ghost before = names.deep_view();
        names.push(roles[i].name.clone());
        assert(names.deep_view() =~= before.push(roles@[i as int].name@));
        i = i + 1;
    }
    assert(vitals_names(roles@).take(i as int) =~= vitals_names(roles@));
    names
}

/// The roles ordered by their names compared in lower case, the way
/// `sort_by` with `to_lowercase` keys orders them.
pub fn sort_by_name(roles: &Vec<RoleVitals>) -> (res: Vec<RoleVitals>)
    ensures
        sorted_by_name(roles@, res@),
{
    let names = collect_names(roles);
    let keys = to_lowercase_all(&names);
    let order = stable_sort_order(&keys);
    let mut res: Vec<RoleVitals> = Vec::new();
    let mut k: usize = 0;
    while k < order.len()
        invariant
            stable_order(lowercase_keys(vitals_names(roles@)), order@),
            k <= order@.len(),
            res@.len() == k,
            forall|j: int| 0 <= j < k ==> #[trigger] res@[j] == roles@[order@[j] as int],
        decreases order@.len() - k,
    {
        let r = &roles[order[k]];
        res.push(RoleVitals { id: r.id, name: r.name.clone(), users: r.users });
        k = k + 1;
    }
    res
}

/// The option listing a role: its name, its id as value.
pub open spec fn role_option(name: Seq<char>, id: u64, selected: bool) -> SelectOptionView {
    SelectOptionView { label: name, value: decimal(id as nat), default_selected: selected }
}

/// Options to pick roles of a list; the roles the member holds already are
/// preselected.
pub fn pick_options(roles: &Vec<RoleVitals>, member_roles: &Vec<u64>) -> (res: Vec<SelectOption>)
    ensures
        options_view(res@) == roles@.map_values(
            |r: RoleVitals| role_option(r.name@, r.id, member_roles@.contains(r.id)),
        ),
{
    let mut opts: Vec<SelectOption> = Vec::new();
    let mut i: usize = 0;
    while i < roles.len()
        invariant
            i <= roles@.len(),
            options_view(opts@) =~= roles@.map_values(
                |r: RoleVitals| role_option(r.name@, r.id, member_roles@.contains(r.id)),
            ).take(i as int),
        decreases roles@.len() - i,
    {
        let r = &roles[i];
        let opt = SelectOption {
            label: r.name.clone(),
            value: u64_to_decimal(r.id),
            default_selected: contains_id(member_roles, r.id),
        };
        let ghost before = opts@;
        opts.push(opt);
        assert(options_view(opts@) =~= options_view(before).push(opt@));
        i = i + 1;
    }
    assert(roles@.map_values(
        |r: RoleVitals| role_option(r.name@, r.id, member_roles@.contains(r.id)),
    ).take(i as int) =~= roles@.map_values(
        |r: RoleVitals| role_option(r.name@, r.id, member_roles@.contains(r.id)),
    ));
    opts
}

/// The names of a list of server roles.
pub open spec fn info_names(roles: Seq<RoleInfo>) -> Seq<Seq<char>> {
    roles.map_values(|r: RoleInfo| r.name@)
}

/// The test of [assignable] on a role.
pub open spec fn assignable_pred() -> spec_fn(RoleInfo) -> bool {
    |r: RoleInfo| assignable(r.name@, r.permissions)
}

/// The roles of a server that may be handed out, in server order.
pub open spec fn assignable_roles(roles: Seq<RoleInfo>) -> Seq<RoleInfo> {
    roles.filter(assignable_pred())
}

/// `res` lists the assignable roles ordered by lower-cased name; a role is
/// preselected when `preselected` holds its id.
pub open spec fn assignable_options_spec(
    roles: Seq<RoleInfo>,
    preselected: Seq<u64>,
    res: Seq<SelectOptionView>,
) -> bool {
    let avail = assignable_roles(roles);
    exists|order: Seq<usize>|
        stable_order(lowercase_keys(info_names(avail)), order) && res.len() == order.len() && forall|k: int|
            0 <= k < order.len() ==> #[trigger] res[k] == role_option(
                avail[order[k] as int].name@,
                avail[order[k] as int].id,
                preselected.contains(avail[order[k] as int].id),
            )
}

/// Law of the role menus: every role a menu of assignable roles offers is
/// assignable, neither a moderation role nor `@everyone`.
pub proof fn lemma_menu_offers_only_assignable(
    roles: Seq<RoleInfo>,
    preselected: Seq<u64>,
    res: Seq<SelectOptionView>,
    k: int,
)
    requires
        assignable_options_spec(roles, preselected, res),
        0 <= k < res.len(),
    ensures
        exists|j: int|
            0 <= j < assignable_roles(roles).len() && {
                let r = #[trigger] assignable_roles(roles)[j];
                &&& assignable(r.name@, r.permissions)
                &&& res[k].label == r.name@
                &&& res[k].value == decimal(r.id as nat)
            },
{
    let avail = assignable_roles(roles);
    let order = choose|order: Seq<usize>|
        stable_order(lowercase_keys(info_names(avail)), order) && res.len() == order.len() && forall|k: int|
            0 <= k < order.len() ==> #[trigger] res[k] == role_option(
                avail[order[k] as int].name@,
                avail[order[k] as int].id,
                preselected.contains(avail[order[k] as int].id),
            );
    let j = order[k] as int;
    assert(res[k] == role_option(avail[j].name@, avail[j].id, preselected.contains(avail[j].id)));
    assert(lowercase_keys(info_names(avail)).len() == avail.len());
    roles.lemma_filter_pred(assignable_pred(), j);
    assert(assignable_pred()(avail[j]));
}

/// Positions of the roles that may be handed out, in order.
pub fn filter_assignable(roles: &Vec<RoleInfo>) -> (res: Vec<usize>)
    ensures
        res@.len() == assignable_roles(roles@).len(),
        forall|k: int| #![trigger res@[k]] 0 <= k < res@.len() ==> (res@[k] as int) < roles@.len(),
        forall|k: int| #![trigger res@[k]] 0 <= k < res@.len() ==> roles@[res@[k] as int] == assignable_roles(roles@)[k],
{
    let mut idx: Vec<usize> = Vec::new();
    let mut i: usize = 0;
    assert(roles@.take(0).filter(assignable_pred()) =~= Seq::<RoleInfo>::empty()) by {
        reveal_with_fuel(Seq::<_>::filter, 1);
    }
    while i < roles.len()
        invariant
            i <= roles@.len(),
            idx@.len() == roles@.take(i as int).filter(assignable_pred()).len(),
            forall|k: int| #![trigger idx@[k]] 0 <= k < idx@.len() ==> (idx@[k] as int) < i,
            forall|k: int| #![trigger idx@[k]] 0 <= k < idx@.len() ==> roles@[idx@[k] as int]
                == roles@.take(i as int).filter(assignable_pred())[k],
        decreases roles@.len() - i,
    {
        let ghost before = roles@.take(i as int).filter(assignable_pred());
        assert(roles@.take(i + 1).drop_last() =~= roles@.take(i as int));
        assert(roles@.take(i + 1).last() == roles@[i as int]);
        let keep = role_filter(&roles[i]);
        proof {
            reveal_with_fuel(Seq::<_>::filter, 1);
        }
        assert(assignable_pred()(roles@[i as int]) == keep);
        assert(roles@.take(i + 1).drop_last().filter(assignable_pred()) == before);
        let ghost old_idx = idx@;
        if keep {
            idx.push(i);
            assert(roles@.take(i + 1).filter(assignable_pred()) == before.push(roles@[i as int]));
            assert forall|k: int| #![trigger idx@[k]] 0 <= k < idx@.len() implies roles@[idx@[k] as int]
                == roles@.take(i + 1).filter(assignable_pred())[k] by {
                if k < old_idx.len() {
                    assert(idx@[k] == old_idx[k]);
                }
            }
        } else {
            assert(roles@.take(i + 1).filter(assignable_pred()) == before);
        }
        i = i + 1;
    }
    assert(roles@.take(i as int) =~= roles@);
    idx
}

/// Select options for the assignable roles of a server, ordered by
/// lower-cased name; roles in `preselected` are preselected.
pub fn assignable_options(roles: &Vec<RoleInfo>, preselected: &Vec<u64>) -> (res: Vec<SelectOption>)
    ensures
        assignable_options_spec(roles@, preselected@, options_view(res@)),
{
    let idx = filter_assignable(roles);
    let ghost avail = assignable_roles(roles@);
    let mut names: Vec<String> = Vec::new();
    let mut i: usize = 0;
    while i < idx.len()
        invariant
            avail == assignable_roles(roles@),
            idx@.len() == avail.len(),
            forall|k: int| #![trigger idx@[k]] 0 <= k < idx@.len() ==> (idx@[k] as int) < roles@.len(),
            forall|k: int| #![trigger idx@[k]] 0 <= k < idx@.len() ==> roles@[idx@[k] as int] == avail[k],
            i <= idx@.len(),
            names.deep_view() =~= info_names(avail).take(i as int),
        decreases idx@.len() - i,
    {
        let ghost before = names.deep_view();
        let _ = idx[i];
        names.push(roles[idx[i]].name.clone());
        assert(names.deep_view() =~= before.push(avail[i as int].name@));
        i = i + 1;
    }
    assert(info_names(avail).take(i as int) =~= info_names(avail));
    let keys = to_lowercase_all(&names);
    let order = stable_sort_order(&keys);
    let mut opts: Vec<SelectOption> = Vec::new();
    let mut k: usize = 0;
    while k < order.len()
        invariant
            avail == assignable_roles(roles@),
            idx@.len() == avail.len(),
            forall|j: int| #![trigger idx@[j]] 0 <= j < idx@.len() ==> (idx@[j] as int) < roles@.len(),
            forall|j: int| #![trigger idx@[j]] 0 <= j < idx@.len() ==> roles@[idx@[j] as int] == avail[j],
            stable_order(lowercase_keys(info_names(avail)), order@),
            k <= order@.len(),
            opts@.len() == k,
            forall|j: int| 0 <= j < k ==> #[trigger] options_view(opts@)[j] == role_option(
                avail[order@[j] as int].name@,
                avail[order@[j] as int].id,
                preselected@.contains(avail[order@[j] as int].id),
            ),
        decreases order@.len() - k,
    {
        let o = order[k];
        assert((o as int) < avail.len());
        let pos = idx[o];
        let r = &roles[pos];
        assert(*r == avail[o as int]);
        let opt = SelectOption {
            label: r.name.clone(),
            value: u64_to_decimal(r.id),
            default_selected: contains_id(preselected, r.id),
        };
        let ghost before = opts@;
        opts.push(opt);
        assert forall|j: int| 0 <= j < k + 1 implies #[trigger] options_view(opts@)[j] == role_option(
            avail[order@[j] as int].name@,
            avail[order@[j] as int].id,
            preselected@.contains(avail[order@[j] as int].id),
        ) by {
            if j < k {
                assert(options_view(opts@)[j] == options_view(before)[j]);
            }
        }
        k = k + 1;
    }
    assert(options_view(opts@).len() == order@.len());
    opts
}

/// The id a select menu value names: a non-zero decimal `u64`, as
/// `RoleId::from_str` reads it.
pub open spec fn role_id_spec(s: Seq<char>) -> Option<u64> {
    match parse_u64_spec(s) {
        Some(n) => if n == 0 {
            None
        } else {
            Some(n)
        },
        None => None,
    }
}

/// Law of role menus: the value of a role's option reads back as the
/// role's id (ids are never zero).
pub proof fn lemma_option_value_roundtrip(name: Seq<char>, id: u64, selected: bool)
    requires
        id != 0,
    ensures
        role_id_spec(role_option(name, id, selected).value) == Some(id),
{
    lemma_parse_decimal(id);
}

/// Reads a role id from a select menu value.
pub fn parse_role_id(s: &str) -> (res: Option<u64>)
    ensures
        res == role_id_spec(s@),
{
    match parse_u64(s) {
        Some(n) => if n == 0 {
            None
        } else {
            Some(n)
        },
        None => None,
    }
}

/// Reads every selected value as a role id; `None` as soon as one is not
/// a valid id.
pub fn parse_selected_roles(values: &Vec<String>) -> (res: Option<Vec<u64>>)
    ensures
        (forall|k: int| 0 <= k < values@.len() ==> #[trigger] role_id_spec(values@[k]@) is Some) ==> (res matches Some(
            ids,
        ) && ids@.len() == values@.len() && forall|k: int|
            0 <= k < values@.len() ==> Some(#[trigger] ids@[k]) == role_id_spec(values@[k]@)),
        !(forall|k: int| 0 <= k < values@.len() ==> #[trigger] role_id_spec(values@[k]@) is Some) ==> res is None,
{
    let mut ids: Vec<u64> = Vec::new();
    let mut i: usize = 0;
    while i < values.len()
        invariant
            i <= values@.len(),
            ids@.len() == i,
            forall|k: int| 0 <= k < i ==> Some(#[trigger] ids@[k]) == role_id_spec(values@[k]@),
        decreases values@.len() - i,
    {
        match parse_role_id(values[i].as_str()) {
            Some(id) => ids.push(id),
            None => {
                return None;
            },
        }
        i = i + 1;
    }
    assert forall|k: int| 0 <= k < values@.len() implies #[trigger] role_id_spec(values@[k]@) is Some by {
        assert(Some(ids@[k]) == role_id_spec(values@[k]@));
    }
    Some(ids)
}

/// What a member's selection asks for one role of a list.
#[derive(PartialEq, Eq, Structural, Clone, Copy)]
pub enum RoleChange {
    Add,
    Remove,
    Keep,
}

/// The change for one role: add it when selected and not held, remove it
/// when held and not selected, keep it otherwise.
pub open spec fn role_change_spec(held: bool, selected: bool) -> RoleChange {
    if selected && !held {
        RoleChange::Add
    } else if !selected && held {
        RoleChange::Remove
    } else {
        RoleChange::Keep
    }
}

/// The changes a member's selection asks for, one per role of the list.
pub fn role_changes(roles: &Vec<RoleVitals>, member_roles: &Vec<u64>, selected: &Vec<u64>) -> (res: Vec<RoleChange>)
    ensures
        res@ == roles@.map_values(
            |r: RoleVitals| role_change_spec(member_roles@.contains(r.id), selected@.contains(r.id)),
        ),
{
    let mut res: Vec<RoleChange> = Vec::new();
    let mut i: usize = 0;
    while i < roles.len()
        invariant
            i <= roles@.len(),
            res@ =~= roles@.map_values(
                |r: RoleVitals| role_change_spec(member_roles@.contains(r.id), selected@.contains(r.id)),
            ).take(i as int),
        decreases roles@.len() - i,
    {
        let id = roles[i].id;
        let held = contains_id(member_roles, id);
        let sel = contains_id(selected, id);
        let c = if sel && !held {
            RoleChange::Add
        } else if !sel && held {
            RoleChange::Remove
        } else {
            RoleChange::Keep
        };
        res.push(c);
        i = i + 1;
    }
    assert(roles@.map_values(
        |r: RoleVitals| role_change_spec(member_roles@.contains(r.id), selected@.contains(r.id)),
    ).take(i as int) =~= roles@.map_values(
        |r: RoleVitals| role_change_spec(member_roles@.contains(r.id), selected@.contains(r.id)),
    ));
    res
}

/// Whether a member holds a role after the change for it.
pub open spec fn held_after(held: bool, change: RoleChange) -> bool {
    match change {
        RoleChange::Add => true,
        RoleChange::Remove => false,
        RoleChange::Keep => held,
    }
}

/// Law of role picking: once the changes are applied, the member holds a
/// role of the list exactly when it was selected.
pub proof fn lemma_changes_apply_selection(
    roles: Seq<RoleVitals>,
    member_roles: Seq<u64>,
    selected: Seq<u64>,
    k: int,
)
    requires
        0 <= k < roles.len(),
    ensures
        held_after(
            member_roles.contains(roles[k].id),
            roles.map_values(
                |r: RoleVitals| role_change_spec(member_roles.contains(r.id), selected.contains(r.id)),
            )[k],
        ) == selected.contains(roles[k].id),
{
}

} // verus!
