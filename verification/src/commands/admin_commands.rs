//! The commands for the administrators of a guild.
use vstd::prelude::*;

use crate::commands::user_commands::self_role_message;
use crate::commands::{token_user, user_argument, UserInfo, UserInfoView};
use crate::embed::{base_embed, block_field, create_embed, Embed, EmbedView};
use crate::outside::{
    debug_string, debug_text, parse_unsigned, u64_from_str, u8_from_str, user_id_parse_panics,
};
use crate::registry::{
    all_forgiven, can_forgive, deregister, deregistered, forgive, forgive_all, forgiven,
    has_member_named, has_member_with_id, register, registered, strings_view, warn, warned,
    MemberView, Server, ServerView,
};
use crate::roles::{find_role_by_name, role_named, roles_view, GuildRole};
use crate::text::{decimal, push_decimal};

verus! {

pub open spec fn admin_help_embed() -> EmbedView {
    EmbedView {
        title: Some("Commands list"@),
        fields: seq![
            block_field("&&admin_help"@, "Displays this menu"@),
            block_field("&&register_user <@user>"@, "Add a user to the system and give starting roles [r]"@),
            block_field("&&deregister_user <@user>"@, "Remove a user from the system [r]"@),
            block_field("&&mass_register"@, "Register all current server members [r]"@),
            block_field("&&give_role <@user> <role name>"@, "Give a user a role"@),
            block_field("&&take_role <@user> <role name"@, "Remove a role from a user"@),
            block_field("&&purge <number>"@, "Clear a number of messages from a channel"@),
            block_field("&&get_user_list"@, "Get a list of current registered users"@),
            block_field("&&warn <@user> <reason>"@, "Warn a registered user"@),
            block_field("&&get_warns <@user>"@, "Get a list of warns a registered user has"@),
            block_field("&&forgive <@user> <reason>"@, "Remove a warn from a user"@),
            block_field("&&forgive_all <@user>"@, "Remove all warn from a user"@),
            block_field("&&kick <@user> <reason>"@, "Kick a user from the server"@),
            block_field("&&ban <@user> <reason>"@, "Ban a user from the server"@),
        ],
        footer: Some("[r] = requires manual registration to be enabled\n"@),
        ..base_embed()
    }
}

/// The registry after registering each of `users` (tag, id) in turn.
pub open spec fn registered_all(s: ServerView, users: Seq<UserInfoView>) -> ServerView
    decreases users.len(),
{
    if users.len() == 0 {
        s
    } else {
        registered(registered_all(s, users.drop_last()), users.last().tag, users.last().id)
    }
}

pub open spec fn warn_dm(guild: Seq<char>, reason: Seq<char>) -> Seq<char> {
    "You have been warned on "@ + guild + " for reason "@ + debug_text(reason)
        + ". Please behave better in the future"@
}

pub open spec fn forgive_dm(guild: Seq<char>, reason: Seq<char>) -> Seq<char> {
    "You have been forgiven on "@ + guild + " for warn "@ + debug_text(reason)
        + ". Congratulations"@
}

pub open spec fn forgive_all_dm(guild: Seq<char>) -> Seq<char> {
    "You have been forgiven on "@ + guild + " for all warns. Congratulations"@
}

pub open spec fn kick_dm(guild: Seq<char>, reason: Seq<char>) -> Seq<char> {
    "You have been kicked from "@ + guild + " with reason "@ + debug_text(reason)
        + ". Please behave better in the future"@
}

pub open spec fn ban_dm(guild: Seq<char>, reason: Seq<char>) -> Seq<char> {
    "You have been banned from "@ + guild + " with reason "@ + debug_text(reason)
        + ". Please behave better in the future"@
}

/// `author`, then `middle`, then the user's name, then `tail`: the shape of most log lines.
pub open spec fn about_user(author: Seq<char>, middle: Seq<char>, name: Seq<char>, tail: Seq<
    char,
>) -> Seq<char> {
    author + middle + name + tail
}

/// The warn lists of the members registered under `tag`, in registry order.
pub open spec fn warn_lists_of(users: Seq<MemberView>, tag: Seq<char>) -> Seq<Seq<Seq<char>>>
    decreases users.len(),
{
    if users.len() == 0 {
        Seq::empty()
    } else {
        let prev = warn_lists_of(users.drop_last(), tag);
        if users.last().username == tag {
            prev.push(users.last().warns)
        } else {
            prev
        }
    }
}

/// The entries of a pretty `Debug` list: each item's `Debug` text, indented by four
/// spaces and followed by a comma and a line break.
pub open spec fn pretty_debug_entries(items: Seq<Seq<char>>) -> Seq<char>
    decreases items.len(),
{
    if items.len() == 0 {
        Seq::empty()
    } else {
        pretty_debug_entries(items.drop_last()) + "    "@ + debug_text(items.last()) + ",\n"@
    }
}

/// What std's pretty `Debug` (`{:#?}`) writes for a list of strings: `[]` for an empty
/// list, else `[`, a line break, the entries, and `]`.
pub open spec fn pretty_debug_list(items: Seq<Seq<char>>) -> Seq<char> {
    if items.len() == 0 {
        "[]"@
    } else {
        "[\n"@ + pretty_debug_entries(items) + "]"@
    }
}

/// One item's entry in a pretty `Debug` list: its `Debug` text, indented by four spaces
/// and followed by a comma and a line break.
pub proof fn lemma_pretty_debug_entry_single(x: Seq<char>)
    ensures
        pretty_debug_entries(seq![x]) == "    "@ + debug_text(x) + ",\n"@,
{
    let one = seq![x];
    let none = Seq::<Seq<char>>::empty();
    assert(one.drop_last() =~= none);
    assert(one.last() == x);
    assert(pretty_debug_entries(none) == Seq::<char>::empty());
    assert(Seq::<char>::empty() + "    "@ + debug_text(x) + ",\n"@ =~= "    "@ + debug_text(x)
        + ",\n"@);
}

/// The entries of two runs of items are the entries of the first run followed by those
/// of the second: every item of the list has its own entry, in the list's order.
pub proof fn lemma_pretty_debug_entries_append(a: Seq<Seq<char>>, b: Seq<Seq<char>>)
    ensures
        pretty_debug_entries(a + b) == pretty_debug_entries(a) + pretty_debug_entries(b),
    decreases b.len(),
{
    if b.len() == 0 {
        assert(a + b =~= a);
        assert(pretty_debug_entries(a) + Seq::<char>::empty() =~= pretty_debug_entries(a));
    } else {
        let ab = a + b;
        assert(ab.drop_last() =~= a + b.drop_last());
        assert(ab.last() == b.last());
        lemma_pretty_debug_entries_append(a, b.drop_last());
        let ea = pretty_debug_entries(a);
        let eb = pretty_debug_entries(b.drop_last());
        let t = debug_text(b.last());
        assert(ea + eb + "    "@ + t + ",\n"@ =~= ea + (eb + "    "@ + t + ",\n"@));
    }
}

/// Adding an item to a list adds its entry after the entries of the items before it.
pub proof fn lemma_pretty_debug_entries_push(items: Seq<Seq<char>>, x: Seq<char>)
    ensures
        pretty_debug_entries(items.push(x)) == pretty_debug_entries(items) + "    "@
            + debug_text(x) + ",\n"@,
{
    assert(items.push(x) =~= items + seq![x]);
    lemma_pretty_debug_entries_append(items, seq![x]);
    lemma_pretty_debug_entry_single(x);
    let e = pretty_debug_entries(items);
    assert(e + ("    "@ + debug_text(x) + ",\n"@) =~= e + "    "@ + debug_text(x) + ",\n"@);
}

/// The message that shows one warn list: its pretty `Debug` text in a code block.
pub open spec fn warns_block(warns: Seq<Seq<char>>) -> Seq<char> {
    "```"@ + pretty_debug_list(warns) + "```"@
}

/// Builds `a + b + c + d`.
fn join4(a: &str, b: &str, c: &str, d: &str) -> (s: String)
    ensures
        s@ == a@ + b@ + c@ + d@,
{
    let mut s = String::from_str(a);
    s.append(b);
    s.append(c);
    s.append(d);
    assert(s@ =~= a@ + b@ + c@ + d@);
    s
}

/// Builds `a + b + c + d + e`.
fn join5(a: &str, b: &str, c: &str, d: &str, e: &str) -> (s: String)
    ensures
        s@ == a@ + b@ + c@ + d@ + e@,
{
    let mut s = join4(a, b, c, d);
    s.append(e);
    s
}

/// The pretty `Debug` text of a list of warns, as `format!("{:#?}", warns)` writes it:
/// `[]` when empty, else one entry per line, each its `Debug` text, indented by four
/// spaces and followed by a comma.
fn warn_list_text(warns: &Vec<String>) -> (s: String)
    ensures
        s@ == pretty_debug_list(strings_view(warns@)),
{
    let ghost wv = strings_view(warns@);
    if warns.len() == 0 {
        return String::from_str("[]");
    }
    let mut s = String::from_str("[\n");
    let mut i: usize = 0;
    proof {
        reveal_strlit("[\n");
        assert(wv.take(0) =~= Seq::<Seq<char>>::empty());
        assert(s@ =~= "[\n"@ + pretty_debug_entries(wv.take(0)));
    }
    while i < warns.len()
        invariant
            i <= warns.len(),
            wv == strings_view(warns@),
            s@ == "[\n"@ + pretty_debug_entries(wv.take(i as int)),
        decreases warns.len() - i,
    {
        proof {
            assert(wv.take(i + 1).drop_last() =~= wv.take(i as int));
            assert(wv.take(i + 1).last() == wv[i as int]);
        }
        let d = debug_string(warns[i].as_str());
        s.append("    ");
        s.append(d.as_str());
        s.append(",\n");
        i = i + 1;
        assert(s@ =~= "[\n"@ + pretty_debug_entries(wv.take(i as int)));
    }
    assert(wv.take(warns.len() as int) =~= wv);
    s.append("]");
    s
}

/// The list of commands for administrators.
pub fn admin_help_op() -> (e: Embed)
    ensures
        e@ == admin_help_embed(),
{
    let mut e = create_embed();
    e.set_title(String::from_str("Commands list"));
    e.add_block_field("&&admin_help", "Displays this menu");
    e.add_block_field("&&register_user <@user>", "Add a user to the system and give starting roles [r]");
    e.add_block_field("&&deregister_user <@user>", "Remove a user from the system [r]");
    e.add_block_field("&&mass_register", "Register all current server members [r]");
    e.add_block_field("&&give_role <@user> <role name>", "Give a user a role");
    e.add_block_field("&&take_role <@user> <role name", "Remove a role from a user");
    e.add_block_field("&&purge <number>", "Clear a number of messages from a channel");
    e.add_block_field("&&get_user_list", "Get a list of current registered users");
    e.add_block_field("&&warn <@user> <reason>", "Warn a registered user");
    e.add_block_field("&&get_warns <@user>", "Get a list of warns a registered user has");
    e.add_block_field("&&forgive <@user> <reason>", "Remove a warn from a user");
    e.add_block_field("&&forgive_all <@user>", "Remove all warn from a user");
    e.add_block_field("&&kick <@user> <reason>", "Kick a user from the server");
    e.add_block_field("&&ban <@user> <reason>", "Ban a user from the server");
    e.set_footer(String::from_str("[r] = requires manual registration to be enabled\n"));
    assert(e@ =~= admin_help_embed());
    e
}

/// The roles that a newly registered user is given: the registry's start roles, in
/// their order.
pub fn roles_given_on_registration(server: &Server) -> (roles: Vec<u64>)
    ensures
        roles@ == server@.start_roles,
{
    let mut roles: Vec<u64> = Vec::new();
    let mut i: usize = 0;
    while i < server.start_roles.len()
        invariant
            i <= server.start_roles.len(),
            roles@ == server@.start_roles.take(i as int),
        decreases server.start_roles.len() - i,
    {
        roles.push(server.start_roles[i]);
        i = i + 1;
        assert(roles@ =~= server@.start_roles.take(i as int));
    }
    assert(server@.start_roles.take(i as int) =~= server@.start_roles);
    roles
}

/// Registers `user` (a no-op when its tag is registered already). `user` is `None` when
/// the argument names no user or no such user could be fetched: then
/// `Err("Please enter a valid user")` and the registry untouched. Otherwise gives whether
/// the registry changed, the log line, and the roles the user is then given: the
/// registry's start roles.
pub fn register_user_op(server: &mut Server, author: &String, user: Option<&UserInfo>) -> (r:
    Result<(bool, String, Vec<u64>), String>)
    ensures
        match user {
            None => (r matches Err(e) && e@ == "Please enter a valid user"@) && final(server)@
                == old(server)@,
            Some(u) => {
                &&& final(server)@ == registered(old(server)@, u.tag@, u.id)
                &&& r matches Ok((added, log, roles)) && added == !has_member_named(
                    old(server)@.users,
                    u.tag@,
                ) && log@ == about_user(author@, " registered user "@, u.name@, Seq::empty())
                    && roles@ == final(server)@.start_roles
            },
        },
{
    let user = match user {
        Some(u) => u,
        None => {
            return Err(String::from_str("Please enter a valid user"));
        },
    };
    let added = register(server, &user.tag, user.id);
    let log = join4(author.as_str(), " registered user ", user.name.as_str(), "");
    proof {
        reveal_strlit("");
    }
    Ok((added, log, roles_given_on_registration(server)))
}

/// Deregisters `user` (by id). Gives whether the registry changed and the log line.
pub fn deregister_user_op(server: &mut Server, author: &String, user: &UserInfo) -> (r: (
    bool,
    String,
))
    ensures
        r.0 == has_member_with_id(old(server)@.users, user.id),
        final(server)@ == deregistered(old(server)@, user.id),
        r.1@ == about_user(author@, " deregistered user "@, user.name@, Seq::empty()),
{
    let removed = deregister(server, user.id);
    let log = join4(author.as_str(), " deregistered user ", user.name.as_str(), "");
    proof {
        reveal_strlit("");
    }
    (removed, log)
}

/// Registers every member of the guild, in the order given, and gives the log line.
/// `guild` is the guild of the command's message: `Err("Invalid guild")`, registry
/// untouched, when the message came from no guild (`members` is then not read).
pub fn mass_register_op(
    guild: Option<u64>,
    server: &mut Server,
    author: &String,
    members: &Vec<UserInfo>,
) -> (r: Result<String, String>)
    ensures
        guild is None ==> (r matches Err(e) && e@ == "Invalid guild"@) && final(server)@ == old(
            server,
        )@,
        guild is Some ==> final(server)@ == registered_all(
            old(server)@,
            members@.map_values(|u: UserInfo| u@),
        ) && (r matches Ok(log) && log@ == author@ + " registered all users"@),
{
    if guild.is_none() {
        return Err(String::from_str("Invalid guild"));
    }
    let ghost start = server@;
    let ghost mv = members@.map_values(|u: UserInfo| u@);
    let mut i: usize = 0;
    assert(mv.take(0) =~= Seq::<UserInfoView>::empty());
    while i < members.len()
        invariant
            i <= members.len(),
            mv == members@.map_values(|u: UserInfo| u@),
            server@ == registered_all(start, mv.take(i as int)),
        decreases members.len() - i,
    {
        register(server, &members[i].tag, members[i].id);
        proof {
            assert(mv.take(i + 1).drop_last() =~= mv.take(i as int));
            assert(mv.take(i + 1).last() == mv[i as int]);
        }
        i = i + 1;
    }
    assert(mv.take(members.len() as int) =~= mv);
    let mut log = author.clone();
    log.append(" registered all users");
    Ok(log)
}

/// The user and the role of a role change: `token` is the command's first argument and
/// `guild_roles` the roles of the message's guild (`None` when it came from no guild).
/// `Err("Please enter a valid user")` when the argument names no user, else
/// `Err("Could not find guild")` when there is no guild, else `Err("Role does not
/// exist")` when the guild has no role named `role_name`; otherwise the user's id and the
/// role's id. The log line of the change is `role_log(give, ..)`.
pub fn role_op(token: Option<&str>, guild_roles: Option<&Vec<GuildRole>>, role_name: &String) -> (r:
    Result<(u64, u64), String>)
    requires
        token matches Some(t) ==> !user_id_parse_panics(t@),
    ensures
        match token_user(token) {
            None => r matches Err(e) && e@ == "Please enter a valid user"@,
            Some(uid) => match guild_roles {
                None => r matches Err(e) && e@ == "Could not find guild"@,
                Some(roles) => match role_named(roles_view(roles@), role_name@) {
                    None => r matches Err(e) && e@ == "Role does not exist"@,
                    Some(rid) => r == Ok::<(u64, u64), String>((uid as u64, rid)),
                },
            },
        },
{
    let user = match user_argument(token) {
        Ok(u) => u,
        Err(e) => {
            return Err(e);
        },
    };
    let roles = match guild_roles {
        Some(g) => g,
        None => {
            return Err(String::from_str("Could not find guild"));
        },
    };
    match find_role_by_name(roles, role_name) {
        None => Err(String::from_str("Role does not exist")),
        Some(id) => Ok((user, id)),
    }
}

/// The log line of an administrator giving a user a role (`give`) or taking it away.
pub open spec fn role_change_log(give: bool, author: Seq<char>, role: Seq<char>, user: Seq<char>) -> Seq<
    char,
> {
    if give {
        author + " gave user "@ + user + " role "@ + role
    } else {
        author + " removed role "@ + role + " from user "@ + user
    }
}

/// The log line of an administrator giving `user` the role `role` (`give`) or taking it
/// away.
pub fn role_log(give: bool, author: &String, role: &String, user: &String) -> (s: String)
    ensures
        s@ == role_change_log(give, author@, role@, user@),
{
    let s = self_role_message(!give, author, role, user);
    assert(s@ =~= role_change_log(give, author@, role@, user@));
    s
}

/// The number of messages to purge, the command's first argument as
/// `Args::single::<u64>` reads it: `Err("Invalid quantity")` when there is no argument
/// or it is not a number. The log line of the purge is `purge_log(..)`.
pub fn purge_op(token: Option<&str>) -> (r: Result<u64, String>)
    ensures
        match token {
            Some(t) => match parse_unsigned(t@, u64::MAX as nat) {
                Some(n) => r == Ok::<u64, String>(n as u64),
                None => r matches Err(e) && e@ == "Invalid quantity"@,
            },
            None => r matches Err(e) && e@ == "Invalid quantity"@,
        },
{
    let parsed = match token {
        Some(t) => u64_from_str(t),
        None => None,
    };
    match parsed {
        Some(n) => Ok(n),
        None => Err(String::from_str("Invalid quantity")),
    }
}

/// The log line of a purge of `quantity` messages in the channel `channel`.
pub fn purge_log(author: &String, quantity: u64, channel: &String) -> (log: String)
    ensures
        log@ == author@ + " purged "@ + decimal(quantity as nat) + " messages in "@ + channel@,
{
    let mut log = author.clone();
    log.append(" purged ");
    push_decimal(&mut log, quantity);
    log.append(" messages in ");
    log.append(channel.as_str());
    log
}

/// Warns `user` for `reason` in the guild `guild`: every member registered under its
/// tag gets the warn. Gives the message sent to the user and the log line.
pub fn warn_op(
    server: &mut Server,
    author: &String,
    user: &UserInfo,
    guild: &String,
    reason: &String,
) -> (r: (String, String))
    ensures
        final(server)@ == warned(old(server)@, user.tag@, reason@),
        r.0@ == warn_dm(guild@, reason@),
        r.1@ == about_user(author@, " warned user "@, user.name@, " for "@ + reason@),
{
    warn(server, &user.tag, reason);
    let d = debug_string(reason.as_str());
    let dm = join5(
        "You have been warned on ",
        guild.as_str(),
        " for reason ",
        d.as_str(),
        ". Please behave better in the future",
    );
    let log = join5(author.as_str(), " warned user ", user.name.as_str(), " for ", reason.as_str());
    assert(log@ =~= about_user(author@, " warned user "@, user.name@, " for "@ + reason@));
    (dm, log)
}

/// The messages that show the warns of the members registered under `tag`, one per
/// such member, in registry order.
pub fn get_warns_op(server: &Server, tag: &String) -> (msgs: Vec<String>)
    ensures
        msgs@.len() == warn_lists_of(server@.users, tag@).len(),
        forall|i: int|
            0 <= i < msgs@.len() ==> (#[trigger] msgs@[i])@ == warns_block(
                warn_lists_of(server@.users, tag@)[i],
            ),
{
    let ghost uv = server@.users;
    let mut msgs: Vec<String> = Vec::new();
    let mut i: usize = 0;
    assert(uv.take(0) =~= Seq::<MemberView>::empty());
    while i < server.users.len()
        invariant
            i <= server.users.len(),
            uv == server@.users,
            msgs@.len() == warn_lists_of(uv.take(i as int), tag@).len(),
            forall|k: int|
                0 <= k < msgs@.len() ==> (#[trigger] msgs@[k])@ == warns_block(
                    warn_lists_of(uv.take(i as int), tag@)[k],
                ),
        decreases server.users.len() - i,
    {
        proof {
            assert(uv.take(i + 1).drop_last() =~= uv.take(i as int));
            assert(uv.take(i + 1).last() == uv[i as int]);
        }
        if server.users[i].username == *tag {
            let p = warn_list_text(&server.users[i].warns);
            let mut m = String::from_str("```");
            m.append(p.as_str());
            m.append("```");
            msgs.push(m);
        }
        i = i + 1;
    }
    assert(uv.take(server.users.len() as int) =~= uv);
    msgs
}

/// Forgives `user` the warn `reason`: every member registered under its tag loses its
/// oldest warn with that reason. Gives the message sent to the user and the log line.
pub fn forgive_op(
    server: &mut Server,
    author: &String,
    user: &UserInfo,
    guild: &String,
    reason: &String,
) -> (r: (String, String))
    requires
        can_forgive(old(server)@, user.tag@, reason@),
    ensures
        final(server)@ == forgiven(old(server)@, user.tag@, reason@),
        r.0@ == forgive_dm(guild@, reason@),
        r.1@ == about_user(author@, " forgave user "@, user.name@, " for "@ + reason@),
{
    forgive(server, &user.tag, reason);
    let d = debug_string(reason.as_str());
    let dm = join5(
        "You have been forgiven on ",
        guild.as_str(),
        " for warn ",
        d.as_str(),
        ". Congratulations",
    );
    let log = join5(author.as_str(), " forgave user ", user.name.as_str(), " for ", reason.as_str());
    assert(log@ =~= about_user(author@, " forgave user "@, user.name@, " for "@ + reason@));
    (dm, log)
}

/// Forgives `user` every warn. Gives the message sent to the user and the log line.
pub fn forgive_all_op(server: &mut Server, author: &String, user: &UserInfo, guild: &String) -> (r:
    (String, String))
    ensures
        final(server)@ == all_forgiven(old(server)@, user.tag@),
        r.0@ == forgive_all_dm(guild@),
        r.1@ == about_user(author@, " forgave user "@, user.name@, " for everything"@),
{
    forgive_all(server, &user.tag);
    let mut dm = String::from_str("You have been forgiven on ");
    dm.append(guild.as_str());
    dm.append(" for all warns. Congratulations");
    let log = join4(author.as_str(), " forgave user ", user.name.as_str(), " for everything");
    (dm, log)
}

/// The message sent to a user kicked for `reason`, and the log line.
pub fn kick_op(author: &String, user_name: &String, guild: &String, reason: &String) -> (r: (
    String,
    String,
))
    ensures
        r.0@ == kick_dm(guild@, reason@),
        r.1@ == about_user(author@, " kicked user "@, user_name@, " for "@ + reason@),
{
    let d = debug_string(reason.as_str());
    let dm = join5(
        "You have been kicked from ",
        guild.as_str(),
        " with reason ",
        d.as_str(),
        ". Please behave better in the future",
    );
    let log = join5(author.as_str(), " kicked user ", user_name.as_str(), " for ", reason.as_str());
    assert(log@ =~= about_user(author@, " kicked user "@, user_name@, " for "@ + reason@));
    (dm, log)
}

/// A ban of the user named `user_name` for `reason` in the guild `guild`. `token` is
/// the argument that gives the number of days of messages to delete, read as
/// `Args::single::<u8>` reads it: `Err("Please provide a delete count")` when there is
/// none or it is not a number from 0 to 255. Otherwise the count, the message sent to
/// the user and the log line.
pub fn ban_op(
    token: Option<&str>,
    author: &String,
    user_name: &String,
    guild: &String,
    reason: &String,
) -> (r: Result<(u8, String, String), String>)
    ensures
        match token {
            Some(t) => match parse_unsigned(t@, u8::MAX as nat) {
                Some(n) => r matches Ok((count, dm, log)) && count == n as u8 && dm@ == ban_dm(
                    guild@,
                    reason@,
                ) && log@ == about_user(author@, " banned user "@, user_name@, " for "@ + reason@),
                None => r matches Err(e) && e@ == "Please provide a delete count"@,
            },
            None => r matches Err(e) && e@ == "Please provide a delete count"@,
        },
{
    let parsed = match token {
        Some(t) => u8_from_str(t),
        None => None,
    };
    let count = match parsed {
        Some(n) => n,
        None => {
            return Err(String::from_str("Please provide a delete count"));
        },
    };
    let d = debug_string(reason.as_str());
    let dm = join5(
        "You have been banned from ",
        guild.as_str(),
        " with reason ",
        d.as_str(),
        ". Please behave better in the future",
    );
    let log = join5(author.as_str(), " banned user ", user_name.as_str(), " for ", reason.as_str());
    assert(log@ =~= about_user(author@, " banned user "@, user_name@, " for "@ + reason@));
    Ok((count, dm, log))
}

/// Registering never unregisters: a tag registered before is registered after.
pub proof fn lemma_register_keeps_members(s: ServerView, tag: Seq<char>, id: u64, other: Seq<char>)
    requires
        has_member_named(s.users, other),
    ensures
        has_member_named(registered(s, tag, id).users, other),
{
    let k = choose|k: int| 0 <= k < s.users.len() && s.users[k].username == other;
    let r = registered(s, tag, id);
    assert(r.users[k] == s.users[k]);
}

/// After a mass registration every member of the guild is registered, and every
/// member registered before still is.
pub proof fn lemma_mass_register_registers_all(s: ServerView, users: Seq<UserInfoView>)
    ensures
        forall|k: int|
            0 <= k < users.len() ==> has_member_named(
                registered_all(s, users).users,
                #[trigger] users[k].tag,
            ),
        forall|t: Seq<char>|
            has_member_named(s.users, t) ==> #[trigger] has_member_named(
                registered_all(s, users).users,
                t,
            ),
    decreases users.len(),
{
    if users.len() > 0 {
        let prefix = users.drop_last();
        lemma_mass_register_registers_all(s, prefix);
        let mid = registered_all(s, prefix);
        let last = users.last();
        crate::registry::lemma_register_records_member(mid, last.tag, last.id);
        assert forall|k: int| 0 <= k < users.len() implies has_member_named(
            registered_all(s, users).users,
            #[trigger] users[k].tag,
        ) by {
            if k < users.len() - 1 {
                assert(users[k] == prefix[k]);
                lemma_register_keeps_members(mid, last.tag, last.id, users[k].tag);
            }
        }
        assert forall|t: Seq<char>| has_member_named(s.users, t) implies #[trigger] has_member_named(
            registered_all(s, users).users,
            t,
        ) by {
            lemma_register_keeps_members(mid, last.tag, last.id, t);
        }
    }
}

/// A mass registration never puts two members under one tag.
pub proof fn lemma_mass_register_keeps_tags_distinct(s: ServerView, users: Seq<UserInfoView>)
    requires
        forall|i: int, j: int|
            0 <= i < j < s.users.len() ==> s.users[i].username != s.users[j].username,
    ensures
        ({
            let r = registered_all(s, users).users;
            forall|i: int, j: int| 0 <= i < j < r.len() ==> r[i].username != r[j].username
        }),
    decreases users.len(),
{
    if users.len() > 0 {
        lemma_mass_register_keeps_tags_distinct(s, users.drop_last());
        let mid = registered_all(s, users.drop_last());
        crate::registry::lemma_register_keeps_tags_distinct(mid, users.last().tag, users.last().id);
    }
}

} // verus!
