//! Per-server settings as the database stores them, and how the settings
//! menu shows and reads them back.

use vstd::prelude::*;
use crate::embed::{SelectOption, SelectOptionView, options_view};
use crate::text::{concat, capitalize, capitalize_spec, str_eq};

verus! {

/// Per-server feature switches.
pub struct GuildSettings {
    /// Whether the server allows unserious and/or meme content, default `true`.
    pub unserious: bool,
    /// Whether the bot allows generic administration commands.
    pub admin: bool,
    /// Whether the bot responds to message events, default `false`.
    pub messages: bool,
    /// Whether the bot manages roles, default `false`.
    pub roles: bool,
    /// Channel to manage roles from if applicable, default `None`.
    pub roles_channel: Option<u64>,
}

/// The option the settings menu shows for one switch: the name with a
/// capital first letter, the value `enable_<name>`, preselected when on.
pub open spec fn switch_option(name: Seq<char>, on: bool) -> SelectOptionView {
    SelectOptionView {
        label: capitalize_spec(name),
        value: "enable_"@ + name,
        default_selected: on,
    }
}

/// The options of the settings menu for `s`, in menu order.
pub open spec fn settings_options(s: GuildSettings) -> Seq<SelectOptionView> {
    seq![
        switch_option("admin"@, s.admin),
        switch_option("unserious"@, s.unserious),
        switch_option("messages"@, s.messages),
        switch_option("roles"@, s.roles),
    ]
}

/// The settings read back from the values selected in the menu; the roles
/// channel is carried over.
pub open spec fn selection_settings(values: Seq<Seq<char>>, roles_channel: Option<u64>) -> GuildSettings {
    GuildSettings {
        admin: values.contains("enable_admin"@),
        unserious: values.contains("enable_unserious"@),
        messages: values.contains("enable_messages"@),
        roles: values.contains("enable_roles"@),
        roles_channel,
    }
}

/// The values of the options that a menu shows preselected, in order.
pub open spec fn preselected_values(opts: Seq<SelectOptionView>) -> Seq<Seq<char>>
    decreases opts.len(),
{
    if opts.len() == 0 {
        Seq::empty()
    } else {
        preselected_values(opts.drop_last()) + (if opts.last().default_selected {
            seq![opts.last().value]
        } else {
            Seq::<Seq<char>>::empty()
        })
    }
}

/// Builds one option of a settings menu.
pub fn switch_select_option(name: &str, on: bool) -> (res: SelectOption)
    ensures
        res@ == switch_option(name@, on),
{
    SelectOption { label: capitalize(name), value: concat("enable_", name), default_selected: on }
}

/// Whether `values` holds `target`.
pub fn contains_str(values: &Vec<String>, target: &str) -> (res: bool)
    ensures
        res == values.deep_view().contains(target@),
{
    let mut i: usize = 0;
    while i < values.len()
        invariant
            i <= values@.len(),
            forall|j: int| 0 <= j < i ==> values.deep_view()[j] != target@,
        decreases values@.len() - i,
    {
        if str_eq(values[i].as_str(), target) {
            assert(values.deep_view()[i as int] == target@);
            return true;
        }
        i = i + 1;
    }
    false
}

impl GuildSettings {
    /// Settings of a server that has just been added: unserious content on,
    /// everything else off.
    pub fn default() -> (res: Self)
        ensures
            res == (GuildSettings {
                unserious: true,
                admin: false,
                messages: false,
                roles: false,
                roles_channel: None,
            }),
    {
        GuildSettings { unserious: true, admin: false, messages: false, roles: false, roles_channel: None }
    }

    /// Settings for private messages: only message events are on.
    pub fn private_default() -> (res: Self)
        ensures
            res == (GuildSettings {
                admin: false,
                unserious: false,
                messages: true,
                roles: false,
                roles_channel: None,
            }),
    {
        GuildSettings { admin: false, unserious: false, messages: true, roles: false, roles_channel: None }
    }

    /// All on/off switches with their names, in menu order.
    pub fn as_array(&self) -> (res: [(&'static str, bool); 4])
        ensures
            res[0].0@ == "admin"@ && res[0].1 == self.admin,
            res[1].0@ == "unserious"@ && res[1].1 == self.unserious,
            res[2].0@ == "messages"@ && res[2].1 == self.messages,
            res[3].0@ == "roles"@ && res[3].1 == self.roles,
    {
        [("admin", self.admin), ("unserious", self.unserious), ("messages", self.messages), ("roles", self.roles)]
    }

    /// All switches as select menu options.
    pub fn as_selectmenuoptions(&self) -> (res: Vec<SelectOption>)
        ensures
            options_view(res@) == settings_options(*self),
    {
        let arr = self.as_array();
        let mut opts: Vec<SelectOption> = Vec::new();
        let mut i: usize = 0;
        while i < 4
            invariant
                i <= 4,
                arr[0].0@ == "admin"@ && arr[0].1 == self.admin,
                arr[1].0@ == "unserious"@ && arr[1].1 == self.unserious,
                arr[2].0@ == "messages"@ && arr[2].1 == self.messages,
                arr[3].0@ == "roles"@ && arr[3].1 == self.roles,
                options_view(opts@) =~= settings_options(*self).take(i as int),
            decreases 4 - i,
        {
            let (name, value) = arr[i];
            let opt = switch_select_option(name, value);
            let ghost before = opts@;
            opts.push(opt);
            assert(options_view(opts@) =~= options_view(before).push(opt@));
            i = i + 1;
        }
        assert(settings_options(*self).take(4) =~= settings_options(*self));
        opts
    }

    /// The settings chosen in the settings menu: a switch is on exactly when
    /// its `enable_<name>` value was selected; the roles channel is kept.
    pub fn from_selection(values: &Vec<String>, roles_channel: Option<u64>) -> (res: Self)
        ensures
            res == selection_settings(values.deep_view(), roles_channel),
    {
        GuildSettings {
            admin: contains_str(values, "enable_admin"),
            unserious: contains_str(values, "enable_unserious"),
            messages: contains_str(values, "enable_messages"),
            roles: contains_str(values, "enable_roles"),
            roles_channel,
        }
    }
}

/// Law of the settings menu: submitting the menu without changing the
/// preselected options gives back the settings it was built from.
pub proof fn lemma_menu_roundtrip(s: GuildSettings)
    ensures
        selection_settings(preselected_values(settings_options(s)), s.roles_channel) == s,
{
    reveal_strlit("enable_");
    reveal_strlit("admin");
    reveal_strlit("unserious");
    reveal_strlit("messages");
    reveal_strlit("roles");
    reveal_strlit("enable_admin");
    reveal_strlit("enable_unserious");
    reveal_strlit("enable_messages");
    reveal_strlit("enable_roles");
    let opts = settings_options(s);
    assert("enable_"@ + "admin"@ =~= "enable_admin"@);
    assert("enable_"@ + "unserious"@ =~= "enable_unserious"@);
    assert("enable_"@ + "messages"@ =~= "enable_messages"@);
    assert("enable_"@ + "roles"@ =~= "enable_roles"@);
    let v0 = preselected_values(opts.take(0));
    let v1 = preselected_values(opts.take(1));
    let v2 = preselected_values(opts.take(2));
    let v3 = preselected_values(opts.take(3));
    let v4 = preselected_values(opts);
    assert(opts.take(1).drop_last() =~= opts.take(0));
    assert(opts.take(2).drop_last() =~= opts.take(1));
    assert(opts.take(3).drop_last() =~= opts.take(2));
    assert(opts.drop_last() =~= opts.take(3));
    assert(v0 =~= Seq::<Seq<char>>::empty());
    let a = "enable_admin"@;
    let u = "enable_unserious"@;
    let m = "enable_messages"@;
    let r = "enable_roles"@;
    assert(a != u && a != m && a != r && u != m && u != r && m != r) by {
        assert(a[7] != u[7]);
        assert(a[7] != m[7]);
        assert(a[7] != r[7]);
        assert(u[7] != m[7]);
        assert(u[7] != r[7]);
        assert(m[7] != r[7]);
    }
    assert(v1 =~= (if s.admin { seq![a] } else { Seq::<Seq<char>>::empty() }));
    assert(v2 =~= v1 + (if s.unserious { seq![u] } else { Seq::<Seq<char>>::empty() }));
    assert(v3 =~= v2 + (if s.messages { seq![m] } else { Seq::<Seq<char>>::empty() }));
    assert(v4 =~= v3 + (if s.roles { seq![r] } else { Seq::<Seq<char>>::empty() }));
    assert(v4.contains(a) == s.admin) by {
        if s.admin {
            assert(v4[0] == a);
        } else {
            assert forall|k: int| 0 <= k < v4.len() implies v4[k] != a by {}
        }
    }
    assert(v4.contains(u) == s.unserious) by {
        if s.unserious {
            assert(v4[v1.len() as int] == u);
        } else {
            assert forall|k: int| 0 <= k < v4.len() implies v4[k] != u by {}
        }
    }
    assert(v4.contains(m) == s.messages) by {
        if s.messages {
            assert(v4[v2.len() as int] == m);
        } else {
            assert forall|k: int| 0 <= k < v4.len() implies v4[k] != m by {}
        }
    }
    assert(v4.contains(r) == s.roles) by {
        if s.roles {
            assert(v4[v3.len() as int] == r);
        } else {
            assert forall|k: int| 0 <= k < v4.len() implies v4[k] != r by {}
        }
    }
}

/// Which feature switch a command check reads.
pub enum CheckGuildSetting {
    Admin,
    Role,
    Unserious,
}

impl CheckGuildSetting {
    /// The SQL query that reads the switch of one server.
    pub fn query_text(&self) -> (res: &'static str)
        ensures
            res@ == (match *self {
                CheckGuildSetting::Admin => "SELECT admin FROM guild_settings WHERE guild_id = ?;"@,
                CheckGuildSetting::Role => "SELECT roles FROM guild_settings WHERE guild_id = ?;"@,
                CheckGuildSetting::Unserious => "SELECT unserious FROM guild_settings WHERE guild_id = ?;"@,
            }),
    {
        match self {
            CheckGuildSetting::Admin => "SELECT admin FROM guild_settings WHERE guild_id = ?;",
            CheckGuildSetting::Role => "SELECT roles FROM guild_settings WHERE guild_id = ?;",
            CheckGuildSetting::Unserious => "SELECT unserious FROM guild_settings WHERE guild_id = ?;",
        }
    }
}

/// A role list: its group name and the message that shows it.
pub struct Group {
    pub group_name: String,
    pub message_id: u64,
}


/// A value bound to a statement parameter.
pub enum SqlValue {
    Int(i64),
    Bool(bool),
    Text(String),
    Null,
}

/// The abstract contents of a [SqlValue].
pub enum SqlValueView {
    Int(i64),
    Bool(bool),
    Text(Seq<char>),
    Null,
}

impl View for SqlValue {
    type V = SqlValueView;

    open spec fn view(&self) -> SqlValueView {
        match self {
            SqlValue::Int(v) => SqlValueView::Int(*v),
            SqlValue::Bool(b) => SqlValueView::Bool(*b),
            SqlValue::Text(t) => SqlValueView::Text(t@),
            SqlValue::Null => SqlValueView::Null,
        }
    }
}

/// An SQL statement with the values of its parameters, in order.
pub struct Statement {
    pub sql: String,
    pub binds: Vec<SqlValue>,
}

/// The abstract contents of a [Statement].
pub struct StatementView {
    pub sql: Seq<char>,
    pub binds: Seq<SqlValueView>,
}

impl View for Statement {
    type V = StatementView;

    open spec fn view(&self) -> StatementView {
        StatementView { sql: self.sql@, binds: self.binds@.map_values(|v: SqlValue| v@) }
    }
}

/// How an id is stored: its 64 bits read as a signed integer.
pub open spec fn stored_id(id: u64) -> SqlValueView {
    SqlValueView::Int(id as i64)
}

/// An id as a statement parameter.
pub fn id_value(id: u64) -> (res: SqlValue)
    ensures
        res@ == stored_id(id),
{
    SqlValue::Int(id as i64)
}

/// A statement from its text and parameters.
pub(crate) fn statement(sql: &str, binds: Vec<SqlValue>) -> (res: Statement)
    ensures
        res.sql@ == sql@,
        res.binds@ == binds@,
{
    Statement { sql: String::from_str(sql), binds }
}

/// A statement whose only parameter is an id.
pub(crate) fn by_id(sql: &str, id: u64) -> (res: Statement)
    ensures
        res@ == (StatementView { sql: sql@, binds: seq![stored_id(id)] }),
{
    let mut binds: Vec<SqlValue> = Vec::new();
    binds.push(id_value(id));
    let res = statement(sql, binds);
    assert(res@.binds =~= seq![stored_id(id)]);
    res
}

/// A statement whose parameters are an id and a group name.
pub(crate) fn by_id_and_group(sql: &str, id: u64, group_name: &str) -> (res: Statement)
    ensures
        res@ == (StatementView { sql: sql@, binds: seq![stored_id(id), SqlValueView::Text(group_name@)] }),
{
    let mut binds: Vec<SqlValue> = Vec::new();
    binds.push(id_value(id));
    binds.push(SqlValue::Text(String::from_str(group_name)));
    let res = statement(sql, binds);
    assert(res@.binds =~= seq![stored_id(id), SqlValueView::Text(group_name@)]);
    res
}

impl GuildSettings {
    /// The query that reads the settings of a server.
    pub fn from_query(guild_id: u64) -> (res: Statement)
        ensures
            res@ == (StatementView {
                sql: "SELECT admin,unserious,messages,roles,roles_channel FROM guild_settings WHERE guild_id = ?;"@,
                binds: seq![stored_id(guild_id)],
            }),
    {
        by_id("SELECT admin,unserious,messages,roles,roles_channel FROM guild_settings WHERE guild_id = ?;", guild_id)
    }

    /// The statement that stores these settings for a server.
    pub fn update(&self, guild_id: u64) -> (res: Statement)
        ensures
            res@ == (StatementView {
                sql: "UPDATE guild_settings SET admin = ?, unserious = ?, messages = ?, roles = ?, roles_channel = ? WHERE guild_id = ?;"@,
                binds: update_binds(*self, guild_id),
            }),
    {
        let mut binds: Vec<SqlValue> = Vec::new();
        binds.push(SqlValue::Bool(self.admin));
        binds.push(SqlValue::Bool(self.unserious));
        binds.push(SqlValue::Bool(self.messages));
        binds.push(SqlValue::Bool(self.roles));
        binds.push(
            match self.roles_channel {
                Some(c) => id_value(c),
                None => SqlValue::Null,
            },
        );
        binds.push(id_value(guild_id));
        let res = statement(
            "UPDATE guild_settings SET admin = ?, unserious = ?, messages = ?, roles = ?, roles_channel = ? WHERE guild_id = ?;",
            binds,
        );
        assert(res@.binds =~= update_binds(*self, guild_id));
        res
    }

    /// The settings read from the columns `admin`, `unserious`, `messages`,
    /// `roles` and `roles_channel` of a stored row, in the order
    /// [GuildSettings::from_query] selects them.
    pub fn from_row(admin: bool, unserious: bool, messages: bool, roles: bool, roles_channel: Option<i64>) -> (res: Self)
        ensures
            res == row_settings(admin, unserious, messages, roles, roles_channel),
    {
        GuildSettings {
            admin,
            unserious,
            messages,
            roles,
            roles_channel: match roles_channel {
                Some(c) => Some(c as u64),
                None => None,
            },
        }
    }
}

/// The parameters of the statement storing `s` for a server: the four
/// switches, the roles channel (`NULL` when unset), then the server id.
pub open spec fn update_binds(s: GuildSettings, guild_id: u64) -> Seq<SqlValueView> {
    seq![
        SqlValueView::Bool(s.admin),
        SqlValueView::Bool(s.unserious),
        SqlValueView::Bool(s.messages),
        SqlValueView::Bool(s.roles),
        match s.roles_channel {
            Some(c) => stored_id(c),
            None => SqlValueView::Null,
        },
        stored_id(guild_id),
    ]
}

/// The settings a row with these column values stands for; an id is read
/// back from its signed storage.
pub open spec fn row_settings(
    admin: bool,
    unserious: bool,
    messages: bool,
    roles: bool,
    roles_channel: Option<i64>,
) -> GuildSettings {
    GuildSettings {
        admin,
        unserious,
        messages,
        roles,
        roles_channel: match roles_channel {
            Some(c) => Some(c as u64),
            None => None,
        },
    }
}

/// The boolean a column holds once this parameter is stored in it.
pub open spec fn stored_bool(v: SqlValueView) -> bool {
    match v {
        SqlValueView::Bool(b) => b,
        _ => false,
    }
}

/// The nullable integer a column holds once this parameter is stored in it.
pub open spec fn stored_int(v: SqlValueView) -> Option<i64> {
    match v {
        SqlValueView::Int(i) => Some(i),
        _ => None,
    }
}

/// Law of settings storage: the row the update statement writes for a
/// server, read back column by column as the settings query selects them,
/// gives the settings that were stored; and the query reads the row of
/// the server the update wrote.
pub proof fn lemma_settings_storage_roundtrip(s: GuildSettings, guild_id: u64)
    ensures
        ({
            let b = update_binds(s, guild_id);
            row_settings(stored_bool(b[0]), stored_bool(b[1]), stored_bool(b[2]), stored_bool(b[3]), stored_int(b[4]))
                == s
        }),
        update_binds(s, guild_id)[5] == stored_id(guild_id),
{
    if let Some(c) = s.roles_channel {
        let i = c as i64;
        assert(i as u64 == c) by (bit_vector)
            requires
                i == c as i64,
        ;
    }
}

impl CheckGuildSetting {
    /// The query that reads this switch for a server.
    pub fn query(&self, guild_id: u64) -> (res: Statement)
        ensures
            res@.sql == self.query_text_spec(),
            res@.binds == seq![stored_id(guild_id)],
    {
        by_id(self.query_text(), guild_id)
    }

    /// The text of the query that reads this switch.
    pub open spec fn query_text_spec(&self) -> Seq<char> {
        match *self {
            CheckGuildSetting::Admin => "SELECT admin FROM guild_settings WHERE guild_id = ?;"@,
            CheckGuildSetting::Role => "SELECT roles FROM guild_settings WHERE guild_id = ?;"@,
            CheckGuildSetting::Unserious => "SELECT unserious FROM guild_settings WHERE guild_id = ?;"@,
        }
    }
}

/// The query that reads the roles channel of a server.
pub fn roles_channel_query(guild_id: u64) -> (res: Statement)
    ensures
        res@ == (StatementView {
            sql: "SELECT roles_channel FROM guild_settings WHERE guild_id = ?;"@,
            binds: seq![stored_id(guild_id)],
        }),
{
    by_id("SELECT roles_channel FROM guild_settings WHERE guild_id = ?;", guild_id)
}

/// The query listing every stored server.
pub fn select_guilds() -> (res: Statement)
    ensures
        res@ == (StatementView { sql: "SELECT guild_id FROM guild_settings;"@, binds: Seq::empty() }),
{
    let res = statement("SELECT guild_id FROM guild_settings;", Vec::new());
    assert(res@.binds =~= Seq::<SqlValueView>::empty());
    res
}

/// The query telling whether a server is not stored yet.
pub fn guild_missing_query(guild_id: u64) -> (res: Statement)
    ensures
        res@ == (StatementView {
            sql: "SELECT NOT EXISTS (SELECT 1 FROM guild_settings WHERE guild_id = ?);"@,
            binds: seq![stored_id(guild_id)],
        }),
{
    by_id("SELECT NOT EXISTS (SELECT 1 FROM guild_settings WHERE guild_id = ?);", guild_id)
}

/// The statement that stores a new server with default settings.
pub fn insert_guild(guild_id: u64) -> (res: Statement)
    ensures
        res@ == (StatementView {
            sql: "INSERT INTO guild_settings (guild_id) VALUES (?);"@,
            binds: seq![stored_id(guild_id)],
        }),
{
    by_id("INSERT INTO guild_settings (guild_id) VALUES (?);", guild_id)
}

/// The statement that forgets a server; its groups and roles go with it.
pub fn delete_guild(guild_id: u64) -> (res: Statement)
    ensures
        res@ == (StatementView {
            sql: "DELETE FROM guild_settings WHERE guild_id = ?;"@,
            binds: seq![stored_id(guild_id)],
        }),
{
    by_id("DELETE FROM guild_settings WHERE guild_id = ?;", guild_id)
}

/// The query for the message that shows a role list.
pub fn group_message_query(guild_id: u64, group_name: &str) -> (res: Statement)
    ensures
        res@ == (StatementView {
            sql: "SELECT message_id FROM role_groups WHERE guild_id = ? AND group_name = ?;"@,
            binds: seq![stored_id(guild_id), SqlValueView::Text(group_name@)],
        }),
{
    by_id_and_group("SELECT message_id FROM role_groups WHERE guild_id = ? AND group_name = ?;", guild_id, group_name)
}

/// The query listing the role lists of a server.
pub fn groups_from_query(guild_id: u64) -> (res: Statement)
    ensures
        res@ == (StatementView {
            sql: "SELECT group_name,message_id FROM role_groups WHERE guild_id = ?;"@,
            binds: seq![stored_id(guild_id)],
        }),
{
    by_id("SELECT group_name,message_id FROM role_groups WHERE guild_id = ?;", guild_id)
}

/// The query listing the roles of a role list.
pub fn roles_from_query(guild_id: u64, group_name: &str) -> (res: Statement)
    ensures
        res@ == (StatementView {
            sql: "SELECT role_id FROM roles WHERE guild_id = ? AND group_name = ?;"@,
            binds: seq![stored_id(guild_id), SqlValueView::Text(group_name@)],
        }),
{
    by_id_and_group("SELECT role_id FROM roles WHERE guild_id = ? AND group_name = ?;", guild_id, group_name)
}

/// The query listing the names of the role lists of a server, for
/// completion. It filters on the `server_id` column.
pub fn group_names_query(guild_id: u64) -> (res: Statement)
    ensures
        res@ == (StatementView {
            sql: "SELECT group_name from role_groups WHERE server_id = ?"@,
            binds: seq![stored_id(guild_id)],
        }),
{
    by_id("SELECT group_name from role_groups WHERE server_id = ?", guild_id)
}

/// The statement that stores a new role list and its message.
pub fn insert_group(guild_id: u64, group_name: &str, message_id: u64) -> (res: Statement)
    ensures
        res@ == (StatementView {
            sql: "INSERT INTO role_groups (guild_id, group_name, message) VALUES (?, ?, ?);"@,
            binds: seq![stored_id(guild_id), SqlValueView::Text(group_name@), stored_id(message_id)],
        }),
{
    let mut binds: Vec<SqlValue> = Vec::new();
    binds.push(id_value(guild_id));
    binds.push(SqlValue::Text(String::from_str(group_name)));
    binds.push(id_value(message_id));
    let res = statement("INSERT INTO role_groups (guild_id, group_name, message) VALUES (?, ?, ?);", binds);
    assert(res@.binds =~= seq![stored_id(guild_id), SqlValueView::Text(group_name@), stored_id(message_id)]);
    res
}

/// The statement that adds a role to a role list.
pub fn insert_role(guild_id: u64, group_name: &str, role_id: u64) -> (res: Statement)
    ensures
        res@ == (StatementView {
            sql: "INSERT INTO roles (guild_id, group_name, role_id) VALUES(?, ?, ?);"@,
            binds: seq![stored_id(guild_id), SqlValueView::Text(group_name@), stored_id(role_id)],
        }),
{
    let mut binds: Vec<SqlValue> = Vec::new();
    binds.push(id_value(guild_id));
    binds.push(SqlValue::Text(String::from_str(group_name)));
    binds.push(id_value(role_id));
    let res = statement("INSERT INTO roles (guild_id, group_name, role_id) VALUES(?, ?, ?);", binds);
    assert(res@.binds =~= seq![stored_id(guild_id), SqlValueView::Text(group_name@), stored_id(role_id)]);
    res
}

/// The statements that delete a role list: its entry, then its roles.
pub fn delete_group(guild_id: u64, group_name: &str) -> (res: (Statement, Statement))
    ensures
        res.0@ == (StatementView {
            sql: "DELETE FROM role_groups WHERE guild_id = ? AND group_name = ?;"@,
            binds: seq![stored_id(guild_id), SqlValueView::Text(group_name@)],
        }),
        res.1@ == (StatementView {
            sql: "DELETE FROM roles WHERE guild_id = ? AND group_name = ?;"@,
            binds: seq![stored_id(guild_id), SqlValueView::Text(group_name@)],
        }),
{
    (
        by_id_and_group("DELETE FROM role_groups WHERE guild_id = ? AND group_name = ?;", guild_id, group_name),
        by_id_and_group("DELETE FROM roles WHERE guild_id = ? AND group_name = ?;", guild_id, group_name),
    )
}

/// The statement that empties a role list before its roles are stored
/// again. It matches the group name in every server.
pub fn clear_group_roles(group_name: &str) -> (res: Statement)
    ensures
        res@ == (StatementView {
            sql: "DELETE FROM roles WHERE group_name = ?;"@,
            binds: seq![SqlValueView::Text(group_name@)],
        }),
{
    let mut binds: Vec<SqlValue> = Vec::new();
    binds.push(SqlValue::Text(String::from_str(group_name)));
    let res = statement("DELETE FROM roles WHERE group_name = ?;", binds);
    assert(res@.binds =~= seq![SqlValueView::Text(group_name@)]);
    res
}
} // verus!
