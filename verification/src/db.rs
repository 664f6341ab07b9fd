//! Per-server settings with a single "serious" switch, and the rows of the
//! role list tables.

use vstd::prelude::*;
use crate::database::{SqlValue, SqlValueView, Statement, StatementView, by_id, id_value, statement, stored_id, switch_option,
    switch_select_option};
use crate::embed::{SelectOption, options_view};

verus! {

/// Per-server feature switches.
pub struct GuildSettings {
    /// Whether the server is serious or not, default `true`.
    pub serious: bool,
    /// Whether the bot should respond to message events, default `false`.
    pub messages: bool,
    /// Whether the bot should manage roles, default `false`.
    pub roles: bool,
    /// Channel to manage roles from if applicable, default `None`.
    pub roles_channel: Option<u64>,
}

impl GuildSettings {
    /// Settings of a server nothing is known about.
    pub fn default() -> (res: Self)
        ensures
            res == (GuildSettings { serious: true, messages: false, roles: false, roles_channel: None }),
    {
        GuildSettings { serious: true, messages: false, roles: false, roles_channel: None }
    }

    /// All on/off switches with their names.
    pub fn as_array(&self) -> (res: [(&'static str, bool); 3])
        ensures
            res[0].0@ == "serious"@ && res[0].1 == self.serious,
            res[1].0@ == "messages"@ && res[1].1 == self.messages,
            res[2].0@ == "roles"@ && res[2].1 == self.roles,
    {
        [("serious", self.serious), ("messages", self.messages), ("roles", self.roles)]
    }

    /// All switches as select menu options.
    pub fn as_selectmenuoptions(&self) -> (res: Vec<SelectOption>)
        ensures
            options_view(res@) == seq![
                switch_option("serious"@, self.serious),
                switch_option("messages"@, self.messages),
                switch_option("roles"@, self.roles),
            ],
    {
        let arr = self.as_array();
        let mut opts: Vec<SelectOption> = Vec::new();
        opts.push(switch_select_option(arr[0].0, arr[0].1));
        opts.push(switch_select_option(arr[1].0, arr[1].1));
        opts.push(switch_select_option(arr[2].0, arr[2].1));
        assert(options_view(opts@) =~= seq![
            switch_option("serious"@, self.serious),
            switch_option("messages"@, self.messages),
            switch_option("roles"@, self.roles),
        ]);
        opts
    }
}

/// A role group and the message that shows it.
#[derive(Debug)]
pub struct Group {
    /// Name of the role group.
    pub name: String,
    /// Message that the group is posted in.
    pub message: u64,
}

/// A role managed in a group.
#[derive(Debug)]
pub struct Role {
    /// Server of the role.
    pub guild_id: u64,
    /// Name of the group that the role is under.
    pub group_name: String,
    /// Id of the role.
    pub role_id: u64,
}

impl GuildSettings {
    /// The query that reads the settings of a server.
    pub fn from_query(guild_id: u64) -> (res: Statement)
        ensures
            res@ == (StatementView {
                sql: "SELECT serious,messages,roles,roles_channel FROM guild_settings WHERE id = ?;"@,
                binds: seq![stored_id(guild_id)],
            }),
    {
        by_id("SELECT serious,messages,roles,roles_channel FROM guild_settings WHERE id = ?;", guild_id)
    }

    /// The statement that stores these settings for a server.
    pub fn update(&self, guild_id: u64) -> (res: Statement)
        ensures
            res@ == (StatementView {
                sql: "UPDATE servers SET serious = ?, messages = ?, roles = ?, roles_channel = ? WHERE id = ?;"@,
                binds: seq![
                    SqlValueView::Bool(self.serious),
                    SqlValueView::Bool(self.messages),
                    SqlValueView::Bool(self.roles),
                    match self.roles_channel {
                        Some(c) => stored_id(c),
                        None => SqlValueView::Null,
                    },
                    stored_id(guild_id),
                ],
            }),
    {
        let mut binds: Vec<SqlValue> = Vec::new();
        binds.push(SqlValue::Bool(self.serious));
        binds.push(SqlValue::Bool(self.messages));
        binds.push(SqlValue::Bool(self.roles));
        binds.push(
            match self.roles_channel {
                Some(c) => id_value(c),
                None => SqlValue::Null,
            },
        );
        binds.push(id_value(guild_id));
        let res = statement(
            "UPDATE servers SET serious = ?, messages = ?, roles = ?, roles_channel = ? WHERE id = ?;",
            binds,
        );
        assert(res@.binds =~= seq![
            SqlValueView::Bool(self.serious),
            SqlValueView::Bool(self.messages),
            SqlValueView::Bool(self.roles),
            match self.roles_channel {
                Some(c) => stored_id(c),
                None => SqlValueView::Null,
            },
            stored_id(guild_id),
        ]);
        res
    }
}

impl Group {
    /// The query listing the role groups of a server.
    pub fn from_batch_query(guild_id: u64) -> (res: Statement)
        ensures
            res@ == (StatementView {
                sql: "SELECT name,message FROM role_groups WHERE guild_id = ?;"@,
                binds: seq![stored_id(guild_id)],
            }),
    {
        by_id("SELECT name,message FROM role_groups WHERE guild_id = ?;", guild_id)
    }
}

impl Role {
    /// The query listing the managed roles of a server.
    pub fn from_batch_query(guild_id: u64) -> (res: Statement)
        ensures
            res@ == (StatementView {
                sql: "SELECT group_name,role_id FROM roles WHERE guild_id = ?;"@,
                binds: seq![stored_id(guild_id)],
            }),
    {
        by_id("SELECT group_name,role_id FROM roles WHERE guild_id = ?;", guild_id)
    }
}

} // verus!
