//! Commands of the `bot` binary. It keeps the role lists of each server in
//! tables named after the server, looks roles and categories up by name,
//! and answers with state embeds.

use vstd::prelude::*;
use crate::database::{SqlValue, SqlValueView, Statement, StatementView, by_id, statement, stored_id};
use crate::embed::{Embed, EmbedView, EmbedFieldView, SelectOption, SelectOptionView, rgb, info_color, warn_color, error_color};
use crate::order::{lowercase_keys, stable_order, stable_sort_order, to_lowercase_all};
use crate::rolelist::{autocomplete_groups, completions};
use crate::roles::{RoleChange, RoleInfo, contains_id};
use crate::db_structs::Server;
use crate::snap::{ChannelKind, ChannelPlan, channel_plan, channel_type_spec, filter_overwrites};
use crate::templates::state_embed;
use crate::templates::rolelist::lines_spec;
use crate::text::{concat, decimal, parse_u64, parse_u64_spec, split, split_on, starts_with, str_eq, to_lowercase,
    lowercase_of, trim_end_matches, trim_end_spec, u64_to_decimal, lemma_split_two_pieces};

verus! {

// ---------------------------------------------------------------------------
// rewind
// ---------------------------------------------------------------------------

/// Reads the channel id and the message id at the end of a message link,
/// with a message naming the part that is not a number. The link must hold
/// a `/`.
pub fn id_split(url: &str) -> (res: Result<[u64; 2], &'static str>)
    requires
        url@.contains('/'),
    ensures
        ({
            let parts = split_on(url@, '/');
            match (parse_u64_spec(parts[parts.len() - 2]), parse_u64_spec(parts[parts.len() - 1])) {
                (Some(c), Some(m)) => res == Ok::<[u64; 2], &'static str>([c, m]),
                (None, _) => res matches Err(e)
                    && e@ == "Channel id isn't parseable. Please read the help for this command and try again."@,
                (Some(_), None) => res matches Err(e)
                    && e@ == "Message id isn't parseable. Please read the help for this command and try again."@,
            }
        }),
{
    let id_vec = split(url, '/');
    proof {
        lemma_split_two_pieces(url@, '/');
    }
    let n = id_vec.len();
    let chstr = &id_vec[n - 2];
    let msgstr = &id_vec[n - 1];
    let chres = match parse_u64(chstr.as_str()) {
        Some(v) => v,
        None => {
            return Err("Channel id isn't parseable. Please read the help for this command and try again.");
        },
    };
    let msgres = match parse_u64(msgstr.as_str()) {
        Some(v) => v,
        None => {
            return Err("Message id isn't parseable. Please read the help for this command and try again.");
        },
    };
    let res = [chres, msgres];
    assert(res@ =~= seq![chres, msgres]);
    Ok(res)
}

// ---------------------------------------------------------------------------
// snap
// ---------------------------------------------------------------------------

/// The role names offered for a partly typed name: those whose lower-case
/// form begins with it, in the order given.
pub open spec fn role_completions(names: Seq<Seq<char>>, partial: Seq<char>) -> Seq<Seq<char>> {
    names.filter(|n: Seq<char>| partial.is_prefix_of(lowercase_of(n)))
}

/// Completes a role name.
pub fn autocomplete_roles(names: &Vec<String>, partial: &str) -> (res: Vec<String>)
    ensures
        res.deep_view() == role_completions(names.deep_view(), partial@),
{
    let ghost pred = |n: Seq<char>| partial@.is_prefix_of(lowercase_of(n));
    let ghost all = names.deep_view();
    let mut res: Vec<String> = Vec::new();
    let mut i: usize = 0;
    assert(all.take(0).filter(pred) =~= Seq::<Seq<char>>::empty()) by {
        reveal_with_fuel(Seq::<_>::filter, 1);
    }
    while i < names.len()
        invariant
            i <= names@.len(),
            all == names.deep_view(),
            pred == (|n: Seq<char>| partial@.is_prefix_of(lowercase_of(n))),
            res.deep_view() == all.take(i as int).filter(pred),
        decreases names@.len() - i,
    {
        proof {
            reveal_with_fuel(Seq::<_>::filter, 1);
        }
        assert(all.take(i + 1).drop_last() =~= all.take(i as int));
        assert(all.take(i + 1).last() == names@[i as int]@);
        let lower = to_lowercase(names[i].as_str());
        if starts_with(lower.as_str(), partial) {
            let ghost before = res.deep_view();
            res.push(names[i].clone());
            assert(res.deep_view() =~= before.push(names@[i as int]@));
        }
        i = i + 1;
    }
    assert(all.take(i as int) =~= all);
    res
}

/// Completes a category name: the category names that begin with the
/// partly typed one, in the order given.
pub fn autocomplete_category(names: &Vec<String>, partial: &str) -> (res: Vec<String>)
    ensures
        res.deep_view() == completions(names.deep_view(), partial@),
{
    autocomplete_groups(names, partial)
}

/// A category channel of a server.
pub struct Category {
    pub id: u64,
    pub name: String,
}

/// Index of the first role named `name`.
pub open spec fn first_named(roles: Seq<RoleInfo>, name: Seq<char>) -> int {
    choose|k: int| 0 <= k < roles.len() && roles[k].name@ == name && forall|j: int| 0 <= j < k ==> roles[j].name@ != name
}

/// Whether some role is named `name`.
pub open spec fn has_named(roles: Seq<RoleInfo>, name: Seq<char>) -> bool {
    exists|k: int| 0 <= k < roles.len() && #[trigger] roles[k].name@ == name
}

/// The first role with exactly this name.
pub fn role_by_name(roles: &Vec<RoleInfo>, name: &str) -> (res: Option<u64>)
    ensures
        has_named(roles@, name@) ==> res == Some(roles@[first_named(roles@, name@)].id),
        !has_named(roles@, name@) ==> res is None,
{
    let mut k: usize = 0;
    while k < roles.len()
        invariant
            k <= roles@.len(),
            forall|j: int| 0 <= j < k ==> #[trigger] roles@[j].name@ != name@,
        decreases roles@.len() - k,
    {
        if str_eq(roles[k].name.as_str(), name) {
            assert(first_named(roles@, name@) == k as int) by {
                let f = first_named(roles@, name@);
                assert(0 <= f < roles@.len() && roles@[f].name@ == name@);
                if f > k {
                    assert(roles@[k as int].name@ == name@);
                }
            }
            return Some(roles[k].id);
        }
        k = k + 1;
    }
    None
}

/// The text refusing a role filter.
pub open spec fn unusable_role_text(name: Seq<char>) -> Seq<char> {
    "Role "@ + name + " either does not exist or can't be used."@
}

/// The role that hides a new channel: none when none was asked for; the
/// first role with the requested name, but never `@everyone`; otherwise
/// the text of the refusal.
pub fn filter_role(roles: &Vec<RoleInfo>, requested: Option<&str>) -> (res: Result<Option<u64>, String>)
    ensures
        match requested {
            None => res == Ok::<Option<u64>, String>(None),
            Some(n) => if n@ != "@everyone"@ && has_named(roles@, n@) {
                res == Ok::<Option<u64>, String>(Some(roles@[first_named(roles@, n@)].id))
            } else {
                res matches Err(t) && t@ == unusable_role_text(n@)
            },
        },
{
    match requested {
        None => Ok(None),
        Some(n) => {
            let found = if str_eq(n, "@everyone") {
                None
            } else {
                role_by_name(roles, n)
            };
            match found {
                Some(id) => Ok(Some(id)),
                None => {
                    let a = concat("Role ", n);
                    Err(concat(a.as_str(), " either does not exist or can't be used."))
                },
            }
        },
    }
}

/// Whether some category is named `name`.
pub open spec fn has_category(categories: Seq<Category>, name: Seq<char>) -> bool {
    exists|k: int| 0 <= k < categories.len() && #[trigger] categories[k].name@ == name
}

/// Index of the first category named `name`.
pub open spec fn first_category(categories: Seq<Category>, name: Seq<char>) -> int {
    choose|k: int|
        0 <= k < categories.len() && categories[k].name@ == name && forall|j: int|
            0 <= j < k ==> categories[j].name@ != name
}

/// The category a new channel goes under: none when none was asked for;
/// the first category with the requested name; otherwise the text of the
/// refusal.
pub fn find_category(categories: &Vec<Category>, requested: Option<&str>) -> (res: Result<Option<u64>, String>)
    ensures
        match requested {
            None => res == Ok::<Option<u64>, String>(None),
            Some(n) => if has_category(categories@, n@) {
                res == Ok::<Option<u64>, String>(Some(categories@[first_category(categories@, n@)].id))
            } else {
                res matches Err(t) && t@ == "Category "@ + n@ + " does not exist."@
            },
        },
{
    match requested {
        None => Ok(None),
        Some(n) => {
            let mut k: usize = 0;
            while k < categories.len()
                invariant
                    k <= categories@.len(),
                    requested == Some(n),
                    forall|j: int| 0 <= j < k ==> #[trigger] categories@[j].name@ != n@,
                decreases categories@.len() - k,
            {
                if str_eq(categories[k].name.as_str(), n) {
                    assert(first_category(categories@, n@) == k as int) by {
                        let f = first_category(categories@, n@);
                        assert(0 <= f < categories@.len() && categories@[f].name@ == n@);
                        if f > k {
                            assert(categories@[k as int].name@ == n@);
                        }
                    }
                    return Ok(Some(categories[k].id));
                }
                k = k + 1;
            }
            let a = concat("Category ", n);
            Err(concat(a.as_str(), " does not exist."))
        },
    }
}

/// The channel to create: hidden from the `@everyone` role (found by its
/// name) when a role filter is given. The server must have that role.
pub fn plan_channel(
    roles: &Vec<RoleInfo>,
    name: &str,
    kind: ChannelKind,
    filter: Option<u64>,
    category: Option<u64>,
) -> (res: ChannelPlan)
    requires
        has_named(roles@, "@everyone"@),
    ensures
        res.name@ == name@,
        res.kind == channel_type_spec(kind),
        res.overwrites@ == filter_overwrites(roles@[first_named(roles@, "@everyone"@)].id, filter),
        res.category == category,
{
    let everyone = match role_by_name(roles, "@everyone") {
        Some(id) => id,
        None => 0,
    };
    channel_plan(everyone, name, kind, filter, category)
}

/// Whether a role already has the name once its own name is lower-cased.
pub open spec fn name_in_use(roles: Seq<RoleInfo>, name: Seq<char>) -> bool {
    exists|k: int| 0 <= k < roles.len() && lowercase_of(#[trigger] roles[k].name@) == name
}

/// Whether a new role's name is taken: some role's lower-cased name equals
/// it.
pub fn role_name_taken(roles: &Vec<RoleInfo>, name: &str) -> (res: bool)
    ensures
        res == name_in_use(roles@, name@),
{
    let mut k: usize = 0;
    while k < roles.len()
        invariant
            k <= roles@.len(),
            forall|j: int| 0 <= j < k ==> lowercase_of(#[trigger] roles@[j].name@) != name@,
        decreases roles@.len() - k,
    {
        let lower = to_lowercase(roles[k].name.as_str());
        if str_eq(lower.as_str(), name) {
            return true;
        }
        k = k + 1;
    }
    false
}

/// The view of a state embed.
pub open spec fn state_view(success: bool, text: Seq<char>) -> EmbedView {
    EmbedView {
        title: Some(
            if success {
                ":white_check_mark: Success :white_check_mark:"@
            } else {
                ":warning: Failure :warning:"@
            },
        ),
        description: Some(text),
        color: Some(if success { rgb(102, 51, 102) } else { rgb(178, 34, 34) }),
        footer: None,
        fields: Seq::empty(),
    }
}

/// The answer once a channel was created.
pub fn channel_created(name: &str) -> (res: Embed)
    ensures
        res@ == state_view(true, "Channel "@ + name@ + " has been successfully added to the server."@),
{
    let a = concat("Channel ", name);
    let t = concat(a.as_str(), " has been successfully added to the server.");
    state_embed(true, t.as_str())
}

/// The answer once a role was created.
pub fn role_created(name: &str) -> (res: Embed)
    ensures
        res@ == state_view(true, "Role "@ + name@ + " has been successfully created."@),
{
    let a = concat("Role ", name);
    let t = concat(a.as_str(), " has been successfully created.");
    state_embed(true, t.as_str())
}

// ---------------------------------------------------------------------------
// server events
// ---------------------------------------------------------------------------

/// Whether a server gets the introduction: it is marked new, or the
/// database does not know it yet.
pub fn introduce(is_new: Option<bool>, stored: bool) -> (res: bool)
    ensures
        res == (is_new == Some(true) || !stored),
{
    match is_new {
        Some(true) => true,
        _ => !stored,
    }
}

/// The description of the introduction.
pub open spec fn intro_text() -> Seq<char> {
    "I am general purpose discord bot. To start using my local features on this server, please have an admin run `/setup bot`. For other global commands type /help."@
}

/// The disclosure field of the introduction, linking the repository.
pub open spec fn disclosure_text(repository: Seq<char>) -> Seq<char> {
    "I operate off a database to keep track of settings between servers and reboots. The database consists entirely of booleans and numerical IDs with zero user information or identifying data. If this still concerns you, you can browse the entire implementation at my repository [here]("@
        + repository + ")."@
}

/// The message introducing the bot to a new server.
pub fn intro_embed(repository: &str) -> (res: Embed)
    ensures
        res@ == (EmbedView {
            title: Some("Hello I'm Abby!"@),
            description: Some(intro_text()),
            color: Some(rgb(102, 51, 102)),
            footer: None,
            fields: seq![EmbedFieldView { name: "Disclosure"@, value: disclosure_text(repository@), inline: true }],
        }),
{
    let a = concat(
        "I operate off a database to keep track of settings between servers and reboots. The database consists entirely of booleans and numerical IDs with zero user information or identifying data. If this still concerns you, you can browse the entire implementation at my repository [here](",
        repository,
    );
    let value = concat(a.as_str(), ").");
    let mut e = Embed::new().field(String::from_str("Disclosure"), value, true);
    e.title = Some(String::from_str("Hello I'm Abby!"));
    e.color = Some(info_color());
    e.description = Some(
        String::from_str(
            "I am general purpose discord bot. To start using my local features on this server, please have an admin run `/setup bot`. For other global commands type /help.",
        ),
    );
    assert(e@.fields =~= seq![EmbedFieldView { name: "Disclosure"@, value: disclosure_text(repository@), inline: true }]);
    e
}

/// The name of a server's table: the prefix and the server id.
pub open spec fn table_name(prefix: Seq<char>, guild_id: u64) -> Seq<char> {
    prefix + decimal(guild_id as nat)
}

fn table(prefix: &str, guild_id: u64) -> (res: String)
    ensures
        res@ == table_name(prefix@, guild_id),
{
    let d = u64_to_decimal(guild_id);
    concat(prefix, d.as_str())
}

/// The statement that stores a new server.
pub fn intro_statement(guild_id: u64) -> (res: Statement)
    ensures
        res@ == (StatementView { sql: "INSERT INTO servers (srvid) VALUES(?);"@, binds: seq![stored_id(guild_id)] }),
{
    by_id("INSERT INTO servers (srvid) VALUES(?);", guild_id)
}

/// The statements that forget a server: its settings, its role options,
/// and the two tables of its role lists.
pub fn kick_statements(guild_id: u64) -> (res: Vec<Statement>)
    ensures
        res@.len() == 4,
        res@[0]@ == (StatementView { sql: "DELETE FROM servers WHERE srvid = ?;"@, binds: seq![stored_id(guild_id)] }),
        res@[1]@ == (StatementView {
            sql: "DELETE FROM role_options WHERE srvid = ?;"@,
            binds: seq![stored_id(guild_id)],
        }),
        res@[2]@ == (StatementView {
            sql: "DROP TABLE IF EXISTS "@ + table_name("roles_"@, guild_id) + ";"@,
            binds: Seq::empty(),
        }),
        res@[3]@ == (StatementView {
            sql: "DROP TABLE IF EXISTS "@ + table_name("rgroups_"@, guild_id) + ";"@,
            binds: Seq::empty(),
        }),
{
    let mut res: Vec<Statement> = Vec::new();
    res.push(by_id("DELETE FROM servers WHERE srvid = ?;", guild_id));
    res.push(by_id("DELETE FROM role_options WHERE srvid = ?;", guild_id));
    let roles = table("roles_", guild_id);
    let a = concat("DROP TABLE IF EXISTS ", roles.as_str());
    let drop_roles = concat(a.as_str(), ";");
    let s2 = statement(drop_roles.as_str(), Vec::new());
    assert(s2@.binds =~= Seq::<SqlValueView>::empty());
    res.push(s2);
    let groups = table("rgroups_", guild_id);
    let b = concat("DROP TABLE IF EXISTS ", groups.as_str());
    let drop_groups = concat(b.as_str(), ";");
    let s3 = statement(drop_groups.as_str(), Vec::new());
    assert(s3@.binds =~= Seq::<SqlValueView>::empty());
    res.push(s3);
    res
}

// ---------------------------------------------------------------------------
// rolelist
// ---------------------------------------------------------------------------

/// A statement on one of a server's tables: `before`, the table, `after`.
fn on_table(before: &str, prefix: &str, guild_id: u64, after: &str, binds: Vec<SqlValue>) -> (res: Statement)
    ensures
        res.sql@ == before@ + table_name(prefix@, guild_id) + after@,
        res.binds@ == binds@,
{
    let t = table(prefix, guild_id);
    let a = concat(before, t.as_str());
    let sql = concat(a.as_str(), after);
    statement(sql.as_str(), binds)
}

/// The query listing the role lists of a server.
pub fn groups_query(guild_id: u64) -> (res: Statement)
    ensures
        res@ == (StatementView { sql: "SELECT * FROM "@ + table_name("rgroups_"@, guild_id) + ";"@, binds: Seq::empty() }),
{
    let res = on_table("SELECT * FROM ", "rgroups_", guild_id, ";", Vec::new());
    assert(res@.binds =~= Seq::<SqlValueView>::empty());
    res
}

fn group_bind(group: &str) -> (res: Vec<SqlValue>)
    ensures
        res@.map_values(|v: SqlValue| v@) == seq![SqlValueView::Text(group@)],
{
    let mut binds: Vec<SqlValue> = Vec::new();
    binds.push(SqlValue::Text(String::from_str(group)));
    assert(binds@.map_values(|v: SqlValue| v@) =~= seq![SqlValueView::Text(group@)]);
    binds
}

/// The query for one role list of a server, by name.
pub fn group_query(guild_id: u64, group: &str) -> (res: Statement)
    ensures
        res@ == (StatementView {
            sql: "SELECT * FROM "@ + table_name("rgroups_"@, guild_id) + " WHERE name = ?;"@,
            binds: seq![SqlValueView::Text(group@)],
        }),
{
    on_table("SELECT * FROM ", "rgroups_", guild_id, " WHERE name = ?;", group_bind(group))
}

/// The statements that delete a role list: its entry, then its roles.
pub fn delete_group(guild_id: u64, group: &str) -> (res: (Statement, Statement))
    ensures
        res.0@ == (StatementView {
            sql: "DELETE FROM "@ + table_name("rgroups_"@, guild_id) + " WHERE name = ?;"@,
            binds: seq![SqlValueView::Text(group@)],
        }),
        res.1@ == (StatementView {
            sql: "DELETE FROM "@ + table_name("roles_"@, guild_id) + " WHERE grp = ?;"@,
            binds: seq![SqlValueView::Text(group@)],
        }),
{
    (
        on_table("DELETE FROM ", "rgroups_", guild_id, " WHERE name = ?;", group_bind(group)),
        on_table("DELETE FROM ", "roles_", guild_id, " WHERE grp = ?;", group_bind(group)),
    )
}

/// The statement that adds a selected role, by the value the menu gave
/// for it, to a role list with no holders counted.
pub fn insert_role(guild_id: u64, role: &str, group: &str) -> (res: Statement)
    ensures
        res@ == (StatementView {
            sql: "INSERT INTO "@ + table_name("roles_"@, guild_id) + " (id, grp, users) VALUES(?, ?, 0);"@,
            binds: seq![SqlValueView::Text(role@), SqlValueView::Text(group@)],
        }),
{
    let mut binds: Vec<SqlValue> = Vec::new();
    binds.push(SqlValue::Text(String::from_str(role)));
    binds.push(SqlValue::Text(String::from_str(group)));
    let res = on_table("INSERT INTO ", "roles_", guild_id, " (id, grp, users) VALUES(?, ?, 0);", binds);
    assert(res@.binds =~= seq![SqlValueView::Text(role@), SqlValueView::Text(group@)]);
    res
}

/// The query for the roles of a role list.
pub fn group_roles_query(guild_id: u64, group: &str) -> (res: Statement)
    ensures
        res@ == (StatementView {
            sql: "SELECT * FROM "@ + table_name("roles_"@, guild_id) + " WHERE grp = ?;"@,
            binds: seq![SqlValueView::Text(group@)],
        }),
{
    on_table("SELECT * FROM ", "roles_", guild_id, " WHERE grp = ?;", group_bind(group))
}

/// The statement that stores a new role list and its message.
pub fn insert_group(guild_id: u64, group: &str, message_id: u64) -> (res: Statement)
    ensures
        res@ == (StatementView {
            sql: "INSERT INTO "@ + table_name("rgroups_"@, guild_id) + " (name, msg) VALUES (?, ?)"@,
            binds: seq![SqlValueView::Text(group@), stored_id(message_id)],
        }),
{
    let mut binds: Vec<SqlValue> = Vec::new();
    binds.push(SqlValue::Text(String::from_str(group)));
    binds.push(SqlValue::Int(message_id as i64));
    let res = on_table("INSERT INTO ", "rgroups_", guild_id, " (name, msg) VALUES (?, ?)", binds);
    assert(res@.binds =~= seq![SqlValueView::Text(group@), stored_id(message_id)]);
    res
}

/// The channel a new role list goes to: the stored channel when the bot
/// can post there (none otherwise), else the bot channel of the server.
pub fn list_channel(stored: Option<u64>, postable: bool, bot_channel: Option<u64>) -> (res: Option<u64>)
    ensures
        res == (match stored {
            Some(c) => if postable {
                Some(c)
            } else {
                None
            },
            None => bot_channel,
        }),
{
    match stored {
        Some(c) => if postable {
            Some(c)
        } else {
            None
        },
        None => bot_channel,
    }
}

/// The refusal when no channel can take the role list.
pub fn channel_unusable() -> (res: Embed)
    ensures
        res@ == state_view(
            false,
            "Channel is inaccessable for posting in. Either change the permission overrides or choose a different channel."@,
        ),
{
    state_embed(
        false,
        "Channel is inaccessable for posting in. Either change the permission overrides or choose a different channel.",
    )
}

/// The answer when the role selection timed out.
pub fn selection_timed_out() -> (res: Embed)
    ensures
        res@ == state_view(false, "Interaction timed out, please try again."@),
{
    state_embed(false, "Interaction timed out, please try again.")
}

/// The answer once a role list was created.
pub fn group_created(group: &str) -> (res: Embed)
    ensures
        res@ == state_view(true, "Rolelist for group "@ + group@ + " has been created."@),
{
    let a = concat("Rolelist for group ", group);
    let t = concat(a.as_str(), " has been created.");
    state_embed(true, t.as_str())
}

/// The refusal when a role list does not exist.
pub fn group_missing(group: &str) -> (res: Embed)
    ensures
        res@ == state_view(false, "Role group \""@ + group@ + "\" does not exist."@),
{
    let a = concat("Role group \"", group);
    let t = concat(a.as_str(), "\" does not exist.");
    state_embed(false, t.as_str())
}

/// The warning when the message of a role list cannot be deleted.
pub fn group_undeletable(group: &str) -> (res: Embed)
    ensures
        res@ == state_view(
            false,
            "Either can't find or can't delete the message for the role group \""@ + group@
                + "\". Entries will be removed from the database, but the message will need to be deleted manually."@,
        ),
{
    let a = concat("Either can't find or can't delete the message for the role group \"", group);
    let t = concat(
        a.as_str(),
        "\". Entries will be removed from the database, but the message will need to be deleted manually.",
    );
    state_embed(false, t.as_str())
}

/// The answer once a role list was deleted.
pub fn group_deleted(group: &str) -> (res: Embed)
    ensures
        res@ == state_view(true, "Role group \""@ + group@ + "\" has been deleted."@),
{
    let a = concat("Role group \"", group);
    let t = concat(a.as_str(), "\" has been deleted.");
    state_embed(true, t.as_str())
}

/// A role of a role list as its table stores it: the role's name and its
/// holder count.
pub struct ListEntry {
    pub name: String,
    pub users: u16,
}

/// The names of the entries.
pub open spec fn entry_names(entries: Seq<ListEntry>) -> Seq<Seq<char>> {
    entries.map_values(|e: ListEntry| e.name@)
}

/// The embed of a role list, its entries in the given order.
pub open spec fn entries_view(group: Seq<char>, entries: Seq<ListEntry>, order: Seq<usize>) -> EmbedView {
    EmbedView {
        title: Some(group),
        description: None,
        color: Some(rgb(102, 51, 102)),
        footer: None,
        fields: seq![
            EmbedFieldView {
                name: "Name"@,
                value: trim_end_spec(lines_spec(order.map_values(|i: usize| entries[i as int].name@)), '\n'),
                inline: true,
            },
            EmbedFieldView {
                name: "Users"@,
                value: trim_end_spec(
                    lines_spec(order.map_values(|i: usize| decimal(entries[i as int].users as nat))),
                    '\n',
                ),
                inline: true,
            },
        ],
    }
}

/// The embed of a role list: the entries ordered by lower-cased name,
/// names and holder counts in two inline columns.
pub fn rolelist_embed(group: &str, entries: &Vec<ListEntry>) -> (res: Embed)
    ensures
        exists|order: Seq<usize>|
            stable_order(lowercase_keys(entry_names(entries@)), order) && res@ == entries_view(group@, entries@, order),
{
    let mut names: Vec<String> = Vec::new();
    let mut i: usize = 0;
    while i < entries.len()
        invariant
            i <= entries@.len(),
            names.deep_view() =~= entry_names(entries@).take(i as int),
        decreases entries@.len() - i,
    {
        let ghost before = names.deep_view();
        names.push(entries[i].name.clone());
        assert(names.deep_view() =~= before.push(entries@[i as int].name@));
        i = i + 1;
    }
    assert(entry_names(entries@).take(i as int) =~= entry_names(entries@));
    let keys = to_lowercase_all(&names);
    let order = stable_sort_order(&keys);
    let ghost name_lines = order@.map_values(|i: usize| entries@[i as int].name@);
    let ghost user_lines = order@.map_values(|i: usize| decimal(entries@[i as int].users as nat));
    let mut name_str = String::new();
    let mut user_str = String::new();
    let mut k: usize = 0;
    assert(name_lines.take(0) =~= Seq::<Seq<char>>::empty());
    assert(user_lines.take(0) =~= Seq::<Seq<char>>::empty());
    while k < order.len()
        invariant
            stable_order(lowercase_keys(entry_names(entries@)), order@),
            entry_names(entries@).len() == entries@.len(),
            name_lines == order@.map_values(|i: usize| entries@[i as int].name@),
            user_lines == order@.map_values(|i: usize| decimal(entries@[i as int].users as nat)),
            k <= order@.len(),
            name_str@ == lines_spec(name_lines.take(k as int)),
            user_str@ == lines_spec(user_lines.take(k as int)),
        decreases order@.len() - k,
    {
        let o = order[k];
        assert((o as int) < entries@.len());
        assert(name_lines.take(k + 1).drop_last() =~= name_lines.take(k as int));
        assert(user_lines.take(k + 1).drop_last() =~= user_lines.take(k as int));
        let e = &entries[o];
        let line = concat(e.name.as_str(), "\n");
        name_str = concat(name_str.as_str(), line.as_str());
        let digits = u64_to_decimal(e.users as u64);
        let line = concat(digits.as_str(), "\n");
        user_str = concat(user_str.as_str(), line.as_str());
        k = k + 1;
    }
    assert(name_lines.take(k as int) =~= name_lines);
    assert(user_lines.take(k as int) =~= user_lines);
    let name_str = trim_end_matches(name_str.as_str(), '\n');
    let user_str = trim_end_matches(user_str.as_str(), '\n');
    let mut e = Embed::new().field(String::from_str("Name"), name_str, true).field(
        String::from_str("Users"),
        user_str,
        true,
    );
    e.title = Some(String::from_str(group));
    e.color = Some(info_color());
    assert(e@.fields =~= entries_view(group@, entries@, order@).fields);
    e
}

// ---------------------------------------------------------------------------
// role list buttons
// ---------------------------------------------------------------------------

/// The change the `bot` binary makes for one role of a list when a member
/// submits the menu: it adds a selected role the member lacks, and takes
/// away every role of the list the member holds, selected or not.
pub open spec fn pick_change_spec(held: bool, selected: bool) -> RoleChange {
    if selected && !held {
        RoleChange::Add
    } else if held {
        RoleChange::Remove
    } else {
        RoleChange::Keep
    }
}

/// The changes for the roles of a list, in order.
pub fn pick_changes(list: &Vec<u64>, member_roles: &Vec<u64>, selected: &Vec<u64>) -> (res: Vec<RoleChange>)
    ensures
        res@ == list@.map_values(|id: u64| pick_change_spec(member_roles@.contains(id), selected@.contains(id))),
        forall|i: int|
            0 <= i < list@.len() ==> (res@[i] == RoleChange::Add <==> (selected@.contains(list@[i])
                && !member_roles@.contains(list@[i]))),
        forall|i: int| 0 <= i < list@.len() ==> (res@[i] == RoleChange::Remove <==> member_roles@.contains(list@[i])),
{
    proof {
        lemma_pick_changes_follow_selection(list@, member_roles@, selected@);
    }
    let mut res: Vec<RoleChange> = Vec::new();
    let mut i: usize = 0;
    while i < list.len()
        invariant
            i <= list@.len(),
            res@ =~= list@.map_values(|id: u64| pick_change_spec(member_roles@.contains(id), selected@.contains(id))).take(
                i as int,
            ),
        decreases list@.len() - i,
    {
        let held = contains_id(member_roles, list[i]);
        let sel = contains_id(selected, list[i]);
        let c = if sel && !held {
            RoleChange::Add
        } else if held {
            RoleChange::Remove
        } else {
            RoleChange::Keep
        };
        res.push(c);
        i = i + 1;
    }
    assert(list@.map_values(|id: u64| pick_change_spec(member_roles@.contains(id), selected@.contains(id))).take(
        i as int,
    ) =~= list@.map_values(|id: u64| pick_change_spec(member_roles@.contains(id), selected@.contains(id))));
    res
}

/// Law of role picking: for each role of the list, the change is an
/// addition exactly when the member selected the role and lacks it, a
/// removal exactly when the member holds it, and nothing otherwise; so a
/// role the member neither holds nor selected is never given.
pub proof fn lemma_pick_changes_follow_selection(list: Seq<u64>, member_roles: Seq<u64>, selected: Seq<u64>)
    ensures
        ({
            let changes = list.map_values(|id: u64| pick_change_spec(member_roles.contains(id), selected.contains(id)));
            &&& changes.len() == list.len()
            &&& forall|i: int|
                0 <= i < list.len() ==> {
                    &&& (changes[i] == RoleChange::Add <==> (selected.contains(list[i]) && !member_roles.contains(
                        list[i],
                    )))
                    &&& (changes[i] == RoleChange::Remove <==> member_roles.contains(list[i]))
                    &&& (changes[i] == RoleChange::Keep <==> (!selected.contains(list[i]) && !member_roles.contains(
                        list[i],
                    )))
                }
        }),
{
}

/// The stored holder count of a role after its change: one more for a
/// role given, one less for a role taken away, saturating at the bounds of
/// a `u16`.
pub open spec fn stored_count_after(users: u16, change: RoleChange) -> u16 {
    match change {
        RoleChange::Add => if users == 0xffff { 0xffffu16 } else { (users + 1) as u16 },
        RoleChange::Remove => if users == 0 { 0u16 } else { (users - 1) as u16 },
        RoleChange::Keep => users,
    }
}

/// The statement that stores the new holder count of a role of a list;
/// none when nothing changes.
pub fn count_statement(guild_id: u64, role_id: u64, users: u16, change: RoleChange) -> (res: Option<Statement>)
    ensures
        change == RoleChange::Keep ==> res is None,
        change != RoleChange::Keep ==> (res matches Some(st) && st@ == StatementView {
            sql: "UPDATE "@ + table_name("roles_"@, guild_id) + " SET users = ? WHERE id = ?;"@,
            binds: seq![SqlValueView::Int(stored_count_after(users, change) as i64), stored_id(role_id)],
        }),
{
    let after: u16 = match change {
        RoleChange::Add => users.saturating_add(1),
        RoleChange::Remove => users.saturating_sub(1),
        RoleChange::Keep => {
            return None;
        },
    };
    let mut binds: Vec<SqlValue> = Vec::new();
    binds.push(SqlValue::Int(after as i64));
    binds.push(SqlValue::Int(role_id as i64));
    let st = on_table("UPDATE ", "roles_", guild_id, " SET users = ? WHERE id = ?;", binds);
    assert(st@.binds =~= seq![SqlValueView::Int(stored_count_after(users, change) as i64), stored_id(role_id)]);
    Some(st)
}

/// The statement that empties a role list.
pub fn clear_group(guild_id: u64, group: &str) -> (res: Statement)
    ensures
        res@ == (StatementView {
            sql: "DELETE FROM "@ + table_name("roles_"@, guild_id) + " WHERE grp = ?;"@,
            binds: seq![SqlValueView::Text(group@)],
        }),
{
    on_table("DELETE FROM ", "roles_", guild_id, " WHERE grp = ?;", group_bind(group))
}

/// The answer once the roles of a list were chosen again.
pub fn group_edited(group: &str) -> (res: Embed)
    ensures
        res@ == state_view(
            true,
            "Editing of group "@ + group@ + " has been recreated. The original interaction should be already updated."@,
        ),
{
    let a = concat("Editing of group ", group);
    let t = concat(a.as_str(), " has been recreated. The original interaction should be already updated.");
    state_embed(true, t.as_str())
}

/// The answer once a role list was removed with its button.
pub fn group_removed(group: &str) -> (res: Embed)
    ensures
        res@ == state_view(true, "Role group "@ + group@ + " has been deleted."@),
{
    let a = concat("Role group ", group);
    let t = concat(a.as_str(), " has been deleted.");
    state_embed(true, t.as_str())
}

// ---------------------------------------------------------------------------
// setup
// ---------------------------------------------------------------------------

/// One assignment of the settings update: a switch's name, ` = `, and
/// whether its `enable_<name>` value was selected.
pub open spec fn assignment(name: Seq<char>, values: Seq<Seq<char>>) -> Seq<char> {
    name + " = "@ + (if values.contains("enable_"@ + name) {
        "true"@
    } else {
        "false"@
    })
}

/// The statement storing the switches chosen in the menu. The server id
/// is written into the text.
pub open spec fn settings_update_spec(srvid: i64, values: Seq<Seq<char>>) -> Seq<char> {
    "UPDATE servers SET "@ + assignment("serious"@, values) + ","@ + assignment("messages"@, values) + ","@
        + assignment("roles"@, values) + " WHERE srvid = "@ + signed_decimal(srvid as int) + ";"@
}

/// The decimal text of a signed number, as `i64`'s `Display` writes it.
pub open spec fn signed_decimal(n: int) -> Seq<char> {
    if n < 0 {
        "-"@ + decimal((-n) as nat)
    } else {
        decimal(n as nat)
    }
}

fn i64_to_decimal(n: i64) -> (res: String)
    ensures
        res@ == signed_decimal(n as int),
{
    if n < 0 {
        let m: u64 = if n == i64::MIN {
            9223372036854775808u64
        } else {
            (-n) as u64
        };
        let d = u64_to_decimal(m);
        concat("-", d.as_str())
    } else {
        u64_to_decimal(n as u64)
    }
}

fn assign(name: &str, values: &Vec<String>) -> (res: String)
    ensures
        res@ == assignment(name@, values.deep_view()),
{
    let key = concat("enable_", name);
    let on = crate::database::contains_str(values, key.as_str());
    let a = concat(name, " = ");
    concat(a.as_str(), if on { "true" } else { "false" })
}

/// The statement storing the switches chosen in the settings menu.
pub fn settings_update(server: &Server, values: &Vec<String>) -> (res: Statement)
    ensures
        res@ == (StatementView { sql: settings_update_spec(server.srvid, values.deep_view()), binds: Seq::empty() }),
{
    let s = assign("serious", values);
    let m = assign("messages", values);
    let r = assign("roles", values);
    let id = i64_to_decimal(server.srvid);
    let a = concat("UPDATE servers SET ", s.as_str());
    let b = concat(a.as_str(), ",");
    let c = concat(b.as_str(), m.as_str());
    let d = concat(c.as_str(), ",");
    let e = concat(d.as_str(), r.as_str());
    let f = concat(e.as_str(), " WHERE srvid = ");
    let g = concat(f.as_str(), id.as_str());
    let sql = concat(g.as_str(), ";");
    let res = statement(sql.as_str(), Vec::new());
    assert(res@.binds =~= Seq::<SqlValueView>::empty());
    res
}

/// The statements that create the role list tables of a server when role
/// management is switched on.
pub fn role_tables(guild_id: u64) -> (res: (Statement, Statement))
    ensures
        res.0@ == (StatementView {
            sql: "CREATE TABLE IF NOT EXISTS "@ + table_name("roles_"@, guild_id)
                + " (id BIGINT PRIMARY KEY NOT NULL, grp TEXT NOT NULL, users INTEGER NOT NULL);"@,
            binds: Seq::empty(),
        }),
        res.1@ == (StatementView {
            sql: "CREATE TABLE IF NOT EXISTS "@ + table_name("rgroups_"@, guild_id)
                + " (name TEXT PRIMARY KEY NOT NULL, msg BIGINT NOT NULL);"@,
            binds: Seq::empty(),
        }),
{
    let a = on_table(
        "CREATE TABLE IF NOT EXISTS ",
        "roles_",
        guild_id,
        " (id BIGINT PRIMARY KEY NOT NULL, grp TEXT NOT NULL, users INTEGER NOT NULL);",
        Vec::new(),
    );
    assert(a@.binds =~= Seq::<SqlValueView>::empty());
    let b = on_table(
        "CREATE TABLE IF NOT EXISTS ",
        "rgroups_",
        guild_id,
        " (name TEXT PRIMARY KEY NOT NULL, msg BIGINT NOT NULL);",
        Vec::new(),
    );
    assert(b@.binds =~= Seq::<SqlValueView>::empty());
    (a, b)
}

/// The statement that stores the role list channel of a server that just
/// switched role management on (none when no channel could be found).
pub fn role_options_insert(srvid: i64, channel: Option<u64>) -> (res: Statement)
    ensures
        res@ == (StatementView {
            sql: "INSERT INTO role_options (srvid, channel) VALUES(?, ?);"@,
            binds: seq![
                SqlValueView::Int(srvid),
                match channel {
                    Some(c) => stored_id(c),
                    None => SqlValueView::Null,
                },
            ],
        }),
{
    let mut binds: Vec<SqlValue> = Vec::new();
    binds.push(SqlValue::Int(srvid));
    binds.push(
        match channel {
            Some(c) => SqlValue::Int(c as i64),
            None => SqlValue::Null,
        },
    );
    let res = statement("INSERT INTO role_options (srvid, channel) VALUES(?, ?);", binds);
    assert(res@.binds =~= seq![
        SqlValueView::Int(srvid),
        match channel {
            Some(c) => stored_id(c),
            None => SqlValueView::Null,
        },
    ]);
    res
}

/// The note on the default role list channel once role management is
/// switched on: its name, or the advice to choose one.
pub fn default_channel_note(channel_name: Option<&str>) -> (res: Embed)
    ensures
        match channel_name {
            Some(n) => res@ == (EmbedView {
                title: None,
                description: Some(
                    "The current default channel for role lists is `"@ + n@
                        + "`. If this is not wanted, please run `/setup roles` now."@,
                ),
                color: Some(rgb(253, 253, 150)),
                footer: None,
                fields: Seq::empty(),
            }),
            None => res@ == (EmbedView {
                title: None,
                description: Some(
                    "Could not setup a default channel for roles. Before creating any lists running `/setup roles` is needed."@,
                ),
                color: Some(rgb(178, 34, 34)),
                footer: None,
                fields: Seq::empty(),
            }),
        },
{
    let mut e = Embed::new();
    match channel_name {
        Some(n) => {
            let a = concat("The current default channel for role lists is `", n);
            e.description = Some(concat(a.as_str(), "`. If this is not wanted, please run `/setup roles` now."));
            e.color = Some(warn_color());
        },
        None => {
            e.description = Some(String::from_str(
                "Could not setup a default channel for roles. Before creating any lists running `/setup roles` is needed.",
            ));
            e.color = Some(error_color());
        },
    }
    e
}

/// The statements that forget the role lists of a server once role
/// management is switched off: its roles table, its role options, then its
/// groups table.
pub fn roles_disabled_statements(guild_id: u64, srvid: i64) -> (res: Vec<Statement>)
    ensures
        res@.len() == 3,
        res@[0]@ == (StatementView {
            sql: "DROP TABLE IF EXISTS "@ + table_name("roles_"@, guild_id) + ";"@,
            binds: Seq::empty(),
        }),
        res@[1]@ == (StatementView {
            sql: "DELETE FROM role_options WHERE srvid = ?;"@,
            binds: seq![SqlValueView::Int(srvid)],
        }),
        res@[2]@ == (StatementView {
            sql: "DROP TABLE IF EXISTS "@ + table_name("rgroups_"@, guild_id) + ";"@,
            binds: Seq::empty(),
        }),
{
    let mut res: Vec<Statement> = Vec::new();
    let a = on_table("DROP TABLE IF EXISTS ", "roles_", guild_id, ";", Vec::new());
    assert(a@.binds =~= Seq::<SqlValueView>::empty());
    res.push(a);
    let mut binds: Vec<SqlValue> = Vec::new();
    binds.push(SqlValue::Int(srvid));
    let b = statement("DELETE FROM role_options WHERE srvid = ?;", binds);
    assert(b@.binds =~= seq![SqlValueView::Int(srvid)]);
    res.push(b);
    let c = on_table("DROP TABLE IF EXISTS ", "rgroups_", guild_id, ";", Vec::new());
    assert(c@.binds =~= Seq::<SqlValueView>::empty());
    res.push(c);
    res
}

/// A text channel of a server.
pub struct TextChannel {
    pub id: u64,
    pub name: String,
}

/// The option offering a text channel, preselected when it is the stored
/// channel.
pub open spec fn channel_option(c: TextChannel, stored: Option<i64>) -> SelectOptionView {
    SelectOptionView {
        label: c.name@,
        value: decimal(c.id as nat),
        default_selected: match stored {
            Some(s) => c.id as i64 == s,
            None => false,
        },
    }
}

/// The options of the channel menu of `setup roles`, one per text channel
/// in the order given.
pub fn channel_options(channels: &Vec<TextChannel>, stored: Option<i64>) -> (res: Vec<SelectOption>)
    ensures
        res@.map_values(|o: SelectOption| o@) == channels@.map_values(|c: TextChannel| channel_option(c, stored)),
{
    let mut opts: Vec<SelectOption> = Vec::new();
    let mut i: usize = 0;
    while i < channels.len()
        invariant
            i <= channels@.len(),
            opts@.map_values(|o: SelectOption| o@) =~= channels@.map_values(
                |c: TextChannel| channel_option(c, stored),
            ).take(i as int),
        decreases channels@.len() - i,
    {
        let c = &channels[i];
        let selected = match stored {
            Some(s) => c.id as i64 == s,
            None => false,
        };
        let opt = SelectOption { label: c.name.clone(), value: u64_to_decimal(c.id), default_selected: selected };
        let ghost before = opts@.map_values(|o: SelectOption| o@);
        opts.push(opt);
        assert(opts@.map_values(|o: SelectOption| o@) =~= before.push(opt@));
        i = i + 1;
    }
    assert(channels@.map_values(|c: TextChannel| channel_option(c, stored)).take(i as int) =~= channels@.map_values(
        |c: TextChannel| channel_option(c, stored),
    ));
    opts
}

/// The statement recording the message a role list was moved to.
pub fn moved_group(guild_id: u64, message_id: u64, group: &str) -> (res: Statement)
    ensures
        res@ == (StatementView {
            sql: "UPDATE "@ + table_name("rgroups_"@, guild_id) + " SET msg = ? WHERE name = ?;"@,
            binds: seq![stored_id(message_id), SqlValueView::Text(group@)],
        }),
{
    let mut binds: Vec<SqlValue> = Vec::new();
    binds.push(SqlValue::Int(message_id as i64));
    binds.push(SqlValue::Text(String::from_str(group)));
    let res = on_table("UPDATE ", "rgroups_", guild_id, " SET msg = ? WHERE name = ?;", binds);
    assert(res@.binds =~= seq![stored_id(message_id), SqlValueView::Text(group@)]);
    res
}

/// The statement that stores the role list channel of a server.
pub fn channel_update(channel: u64, guild_id: u64) -> (res: Statement)
    ensures
        res@ == (StatementView {
            sql: "UPDATE role_options SET channel = ? WHERE srvid = ?;"@,
            binds: seq![stored_id(channel), stored_id(guild_id)],
        }),
{
    let mut binds: Vec<SqlValue> = Vec::new();
    binds.push(SqlValue::Int(channel as i64));
    binds.push(SqlValue::Int(guild_id as i64));
    let res = statement("UPDATE role_options SET channel = ? WHERE srvid = ?;", binds);
    assert(res@.binds =~= seq![stored_id(channel), stored_id(guild_id)]);
    res
}

/// The answer once the role list channel is chosen.
pub fn channel_confirmed(channel_name: &str) -> (res: Embed)
    ensures
        res@ == (EmbedView {
            title: Some("Role Settings Confirmed!"@),
            description: Some("Roles will now be managed in the #"@ + channel_name@ + " channel."@),
            color: Some(rgb(102, 51, 102)),
            footer: None,
            fields: Seq::empty(),
        }),
{
    let mut e = Embed::new();
    e.title = Some(String::from_str("Role Settings Confirmed!"));
    e.color = Some(info_color());
    let a = concat("Roles will now be managed in the #", channel_name);
    e.description = Some(concat(a.as_str(), " channel."));
    e
}

} // verus!
