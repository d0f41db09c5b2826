//! The commands that configure the bot for a guild.
use vstd::prelude::*;

use crate::commands::parse_channel_arg;
use crate::embed::{base_embed, block_field, create_embed, Embed, EmbedView};
use crate::outside::channel_id_of;
use crate::registry::{
    add_allowed_role, add_start_role, remove_allowed_role, remove_start_role, role_added,
    role_removed, set_logging_channel, Server, ServerView,
};
use crate::roles::{find_role_by_name, list_roles, role_listing, role_named, roles_view, GuildRole};

verus! {

pub open spec fn config_help_embed() -> EmbedView {
    EmbedView {
        title: Some("Commands list"@),
        fields: seq![
            block_field("&&config_help"@, "Displays this menu"@),
            block_field("&&initialize"@, "Creates a registry that holds user and server metadata, run this command first"@),
            block_field("&&uninitialize"@, "Deletes server registry"@),
            block_field("&&add_start_role <role name>"@, "Make a role automatically given to registered users"@),
            block_field("&&remove_start_role <role name>"@, "Remove a start role"@),
            block_field("&&start_roles_list"@, "Get list of start roles"@),
            block_field("&&add_allowed_role <role name>"@, "Make a role accessible to non-admins"@),
            block_field("&&remove_allowed_role <role name>"@, "Remove an allowed role"@),
            block_field("&&set_logging_channel <#channel>"@, "Set which channel messages are logged in"@),
        ],
        ..base_embed()
    }
}

/// The registry of a guild that has just been initialized.
pub open spec fn fresh_registry(name: Seq<char>, id: u64) -> ServerView {
    ServerView {
        name,
        id,
        log_channel: 0,
        users: Seq::empty(),
        start_roles: Seq::empty(),
        allowed_roles: Seq::empty(),
    }
}

/// The log line of a change to a role list: `author`, `verb`, the role, `list`.
pub open spec fn role_list_log(author: Seq<char>, verb: Seq<char>, role: Seq<char>, list: Seq<
    char,
>) -> Seq<char> {
    author + verb + role + list
}

/// The list of configuration commands.
pub fn config_help_op() -> (e: Embed)
    ensures
        e@ == config_help_embed(),
{
    let mut e = create_embed();
    e.set_title(String::from_str("Commands list"));
    e.add_block_field("&&config_help", "Displays this menu");
    e.add_block_field("&&initialize", "Creates a registry that holds user and server metadata, run this command first");
    e.add_block_field("&&uninitialize", "Deletes server registry");
    e.add_block_field("&&add_start_role <role name>", "Make a role automatically given to registered users");
    e.add_block_field("&&remove_start_role <role name>", "Remove a start role");
    e.add_block_field("&&start_roles_list", "Get list of start roles");
    e.add_block_field("&&add_allowed_role <role name>", "Make a role accessible to non-admins");
    e.add_block_field("&&remove_allowed_role <role name>", "Remove an allowed role");
    e.add_block_field("&&set_logging_channel <#channel>", "Set which channel messages are logged in");
    assert(e@ =~= config_help_embed());
    e
}

/// Creates the registry of a guild: `Err("Already initialized")` when it has one,
/// else an empty registry with the guild's name and id.
pub fn initialize_op(already_initialized: bool, name: String, id: u64) -> (r: Result<
    Server,
    String,
>)
    ensures
        already_initialized ==> (r matches Err(e) && e@ == "Already initialized"@),
        !already_initialized ==> (r matches Ok(s) && s@ == fresh_registry(name@, id)),
{
    if already_initialized {
        return Err(String::from_str("Already initialized"));
    }
    let mut server = Server::new();
    server.name = name;
    server.id = id;
    Ok(server)
}

/// Builds a role list log line.
fn role_list_message(author: &String, verb: &str, role: &String, list: &str) -> (s: String)
    ensures
        s@ == role_list_log(author@, verb@, role@, list@),
{
    let mut s = author.clone();
    s.append(verb);
    s.append(role.as_str());
    s.append(list);
    assert(s@ =~= role_list_log(author@, verb@, role@, list@));
    s
}

/// Makes the role named `role_name` a start role. `Err("Could not find role")` when
/// the guild has no such role, `Err("Role already a starting role")` when it is one;
/// else the role's id and the log line.
pub fn add_start_role_op(
    server: &mut Server,
    guild_roles: &Vec<GuildRole>,
    role_name: &String,
    author: &String,
) -> (r: Result<(u64, String), String>)
    ensures
        match role_named(roles_view(guild_roles@), role_name@) {
            None => (r matches Err(e) && e@ == "Could not find role"@) && final(server)@ == old(
                server,
            )@,
            Some(id) => {
                &&& final(server)@ == (ServerView {
                    start_roles: role_added(old(server)@.start_roles, id),
                    ..old(server)@
                })
                &&& old(server)@.start_roles.contains(id) ==> (r matches Err(e) && e@
                    == "Role already a starting role"@)
                &&& !old(server)@.start_roles.contains(id) ==> (r matches Ok((rid, log)) && rid
                    == id && log@ == role_list_log(
                    author@,
                    " added role "@,
                    role_name@,
                    " to start roles"@,
                ))
            },
        },
{
    let role = match find_role_by_name(guild_roles, role_name) {
        Some(id) => id,
        None => {
            return Err(String::from_str("Could not find role"));
        },
    };
    match add_start_role(server, role) {
        Err(e) => Err(e),
        Ok(()) => Ok((role, role_list_message(author, " added role ", role_name, " to start roles"))),
    }
}

/// Makes the role named `role_name` no longer a start role. `Err("Could not find
/// role")` when the guild has no such role, `Err("Unable to find role in starting
/// roles")` when it is not one; else the role's id and the log line.
pub fn remove_start_role_op(
    server: &mut Server,
    guild_roles: &Vec<GuildRole>,
    role_name: &String,
    author: &String,
) -> (r: Result<(u64, String), String>)
    ensures
        match role_named(roles_view(guild_roles@), role_name@) {
            None => (r matches Err(e) && e@ == "Could not find role"@) && final(server)@ == old(
                server,
            )@,
            Some(id) => {
                &&& final(server)@ == (ServerView {
                    start_roles: role_removed(old(server)@.start_roles, id),
                    ..old(server)@
                })
                &&& !old(server)@.start_roles.contains(id) ==> (r matches Err(e) && e@
                    == "Unable to find role in starting roles"@)
                &&& old(server)@.start_roles.contains(id) ==> (r matches Ok((rid, log)) && rid
                    == id && log@ == role_list_log(
                    author@,
                    " removed role "@,
                    role_name@,
                    " from start roles"@,
                ))
            },
        },
{
    let role = match find_role_by_name(guild_roles, role_name) {
        Some(id) => id,
        None => {
            return Err(String::from_str("Could not find role"));
        },
    };
    match remove_start_role(server, role) {
        Err(e) => Err(e),
        Ok(()) => Ok(
            (role, role_list_message(author, " removed role ", role_name, " from start roles")),
        ),
    }
}

/// The embed that lists the start roles: the guild's roles that are start roles,
/// `@everyone` left out.
pub fn start_roles_list_op(server: &Server, guild_roles: &Vec<GuildRole>) -> (e: Embed)
    ensures
        e@ == (EmbedView {
            title: Some("Start roles"@),
            description: Some(role_listing(roles_view(guild_roles@), server@.start_roles)),
            ..base_embed()
        }),
{
    let mut e = create_embed();
    e.set_title(String::from_str("Start roles"));
    e.set_description(list_roles(guild_roles, &server.start_roles));
    e
}

/// Makes the role named `role_name` one that members may take. `Err("Could not find
/// role")` when the guild has no such role, `Err("Role already a starting role")` when
/// it is one; else the role's id and the log line.
pub fn add_allowed_role_op(
    server: &mut Server,
    guild_roles: &Vec<GuildRole>,
    role_name: &String,
    author: &String,
) -> (r: Result<(u64, String), String>)
    ensures
        match role_named(roles_view(guild_roles@), role_name@) {
            None => (r matches Err(e) && e@ == "Could not find role"@) && final(server)@ == old(
                server,
            )@,
            Some(id) => {
                &&& final(server)@ == (ServerView {
                    allowed_roles: role_added(old(server)@.allowed_roles, id),
                    ..old(server)@
                })
                &&& old(server)@.allowed_roles.contains(id) ==> (r matches Err(e) && e@
                    == "Role already a starting role"@)
                &&& !old(server)@.allowed_roles.contains(id) ==> (r matches Ok((rid, log)) && rid
                    == id && log@ == role_list_log(
                    author@,
                    " added role "@,
                    role_name@,
                    " to allowed roles"@,
                ))
            },
        },
{
    let role = match find_role_by_name(guild_roles, role_name) {
        Some(id) => id,
        None => {
            return Err(String::from_str("Could not find role"));
        },
    };
    match add_allowed_role(server, role) {
        Err(e) => Err(e),
        Ok(()) => Ok(
            (role, role_list_message(author, " added role ", role_name, " to allowed roles")),
        ),
    }
}

/// Makes the role named `role_name` no longer one that members may take.
/// `Err("Could not find role")` when the guild has no such role, `Err("Unable to find
/// role in starting roles")` when it is not one; else the role's id and the log line.
pub fn remove_allowed_role_op(
    server: &mut Server,
    guild_roles: &Vec<GuildRole>,
    role_name: &String,
    author: &String,
) -> (r: Result<(u64, String), String>)
    ensures
        match role_named(roles_view(guild_roles@), role_name@) {
            None => (r matches Err(e) && e@ == "Could not find role"@) && final(server)@ == old(
                server,
            )@,
            Some(id) => {
                &&& final(server)@ == (ServerView {
                    allowed_roles: role_removed(old(server)@.allowed_roles, id),
                    ..old(server)@
                })
                &&& !old(server)@.allowed_roles.contains(id) ==> (r matches Err(e) && e@
                    == "Unable to find role in starting roles"@)
                &&& old(server)@.allowed_roles.contains(id) ==> (r matches Ok((rid, log)) && rid
                    == id && log@ == role_list_log(
                    author@,
                    " removed role "@,
                    role_name@,
                    " from allowed roles"@,
                ))
            },
        },
{
    let role = match find_role_by_name(guild_roles, role_name) {
        Some(id) => id,
        None => {
            return Err(String::from_str("Could not find role"));
        },
    };
    match remove_allowed_role(server, role) {
        Err(e) => Err(e),
        Ok(()) => Ok(
            (role, role_list_message(author, " removed role ", role_name, " from allowed roles")),
        ),
    }
}

/// Makes the channel that `token` names the logging channel: `Err("Invalid channel
/// id")`, registry untouched, when there is no argument or it names no channel; else
/// the channel's id.
pub fn set_logging_channel_op(server: &mut Server, token: Option<&str>) -> (r: Result<u64, String>)
    ensures
        match token {
            Some(t) => match channel_id_of(t@) {
                Some(n) => r == Ok::<u64, String>(n as u64) && final(server)@ == (ServerView {
                    log_channel: n as u64,
                    ..old(server)@
                }),
                None => (r matches Err(e) && e@ == "Invalid channel id"@) && final(server)@ == old(
                    server,
                )@,
            },
            None => (r matches Err(e) && e@ == "Invalid channel id"@) && final(server)@ == old(
                server,
            )@,
        },
{
    match parse_channel_arg(token) {
        None => Err(String::from_str("Invalid channel id")),
        Some(channel) => {
            set_logging_channel(server, channel);
            Ok(channel)
        },
    }
}

/// The log line of a change of logging channel.
pub fn logging_channel_log(author: &String, channel_name: &String) -> (s: String)
    ensures
        s@ == author@ + " set channel "@ + channel_name@ + " as logging channel"@,
{
    let mut s = author.clone();
    s.append(" set channel ");
    s.append(channel_name.as_str());
    s.append(" as logging channel");
    s
}

} // verus!
