//! Rows of the per-server feature tables, as the shared utilities describe
//! them.

use vstd::prelude::*;
use crate::database::{switch_option, switch_select_option};
use crate::embed::{SelectOption, options_view};

verus! {

/// Database feature entry.
#[derive(Debug)]
pub struct Server {
    /// Id of the server bitcast as an `i64`.
    pub srvid: i64,
    /// Whether the server is serious or not, defaults to `true`.
    pub serious: bool,
    /// Whether the bot should respond to message events, defaults to `false`.
    pub messages: bool,
    /// Whether the bot should manage roles, defaults to `false`.
    pub roles: bool,
}

impl Server {
    /// The entry of a server nothing is known about.
    pub fn default() -> (res: Self)
        ensures
            res == (Server { srvid: 0, serious: true, messages: false, roles: false }),
    {
        Server { srvid: 0, serious: true, messages: false, roles: false }
    }

    /// All on/off switches with their names.
    pub fn as_array(&self) -> (res: [(&'static str, bool); 3])
        ensures
            res[0].0@ == "serious"@ && res[0].1 == self.serious,
            res[1].0@ == "messages"@ && res[1].1 == self.messages,
            res[2].0@ == "roles"@ && res[2].1 == self.roles,
    {
        [("serious", self.serious), ("messages", self.messages), ("roles", self.roles)]
    }

    /// All switches as select menu options.
    pub fn as_selectmenuoptions(&self) -> (res: Vec<SelectOption>)
        ensures
            options_view(res@) == seq![
                switch_option("serious"@, self.serious),
                switch_option("messages"@, self.messages),
                switch_option("roles"@, self.roles),
            ],
    {
        let arr = self.as_array();
        let mut opts: Vec<SelectOption> = Vec::new();
        opts.push(switch_select_option(arr[0].0, arr[0].1));
        opts.push(switch_select_option(arr[1].0, arr[1].1));
        opts.push(switch_select_option(arr[2].0, arr[2].1));
        assert(options_view(opts@) =~= seq![
            switch_option("serious"@, self.serious),
            switch_option("messages"@, self.messages),
            switch_option("roles"@, self.roles),
        ]);
        opts
    }
}

/// Database role feature settings entry.
#[derive(Debug, Default)]
pub struct ServerRoles {
    /// Id of the server bitcast as an `i64`.
    pub srvid: i64,
    /// Id of the role list channel bitcast as an `i64`.
    pub channel: Option<i64>,
}

/// Database per-server role entry.
#[derive(Debug, Default)]
pub struct RoleEntry {
    /// Id of the role bitcast as an `i64`.
    pub id: i64,
    /// Group that the role belongs to.
    pub grp: String,
    /// Roughly the number of users with the role.
    pub users: u16,
}

/// Database per-server group management.
#[derive(Debug, Default)]
pub struct RoleGroup {
    /// Name of the role group.
    pub name: String,
    /// Id of the message that holds the group.
    pub msg: i64,
}

} // verus!
