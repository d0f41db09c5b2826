//! The commands that every member may use.
use vstd::prelude::*;

use crate::commands::{parse_user_arg, token_user, UserInfo};
use crate::outside::user_id_parse_panics;
use crate::embed::{base_embed, block_field, create_embed, opt_view, Embed, EmbedView};
use crate::registry::{
    has_member_named, has_role, strings_view, warned, warned_member, MemberView, Server, ServerView,
};
use crate::roles::{
    find_role_by_name, has_role_named, is_last_named, list_roles, role_listing, role_named,
    roles_view, GuildRole,
};
use crate::seqs::{
    is_first_where, lemma_first_where_exists, lemma_first_where_unique, lemma_last_where_exists,
};
use crate::text::{bool_text, bool_to_text, decimal, u64_to_decimal};

verus! {

pub open spec fn help_embed() -> EmbedView {
    EmbedView {
        title: Some("Commands list"@),
        fields: seq![
            block_field("&&help"@, "Displays this menu"@),
            block_field("&&about"@, "Displays some information about the bot"@),
            block_field("&&user_info <@user>"@, "Displays some information about the user"@),
            block_field("&&server_info"@, "Displays some information about the server"@),
            block_field("&&add_role <role>"@, "Give yourself a role"@),
            block_field("&&remove_role <role>"@, "Remove a role from yourself"@),
            block_field("&&roles_list"@, "See list of available roles"@),
            block_field("&&my_warns"@, "See what warns you have, if any"@),
            block_field("&&ping"@, "Send ping"@),
        ],
        ..base_embed()
    }
}

pub open spec fn about_embed() -> EmbedView {
    EmbedView {
        title: Some("About Mechanus"@),
        fields: seq![
            block_field("Overview"@, "Mechanus is a highly configurable administration bot, designed to help with all matters of running a server. User and server metadata are stored in a json file specific to the server, be sure to run &&initialize to create this file as few commands function without it. When a user joins, you must &&register_user them to enter them into the system, or enable automatic registration. See &&config_help for more information."@),
            block_field("For users"@, "Mechanus provides several utilities to aid you in server life, including adding and removing roles from yourself and retrieving information about other users. Type &&help for more information"@),
            block_field("For admins"@, "Mechanus provide a whole host of functions for server administration, including logging, message purging, giving roles to new users upon arrival, and warning. Type &&admin_help for more info"@),
            block_field("Configuration"@, "Mechanus can be configured in many ways, including whether to use manual registration, what roles are banned from public use, what channel messages should be logged in, and more. Type &&config_help for more info"@),
        ],
        footer: Some("Contact @Starfall#7832 for more information"@),
        ..base_embed()
    }
}

/// The embed that describes a user of the guild.
pub open spec fn user_info_embed(
    name: Seq<char>,
    tag: Seq<char>,
    face: Seq<char>,
    nick: Option<Seq<char>>,
    bot: bool,
    joined: Seq<char>,
    created: Seq<char>,
) -> EmbedView {
    EmbedView {
        title: Some(name),
        thumbnail: Some(face),
        fields: seq![
            block_field("Tag"@, tag),
            block_field(
                "Nickname"@,
                match nick {
                    Some(n) => n,
                    None => "None"@,
                },
            ),
            block_field("Bot?"@, bool_text(bot)),
            block_field("Joined"@, joined),
            block_field("Created Account"@, created),
        ],
        ..base_embed()
    }
}

/// The embed that describes the guild.
pub open spec fn server_info_embed(
    name: Seq<char>,
    icon: Option<Seq<char>>,
    member_count: nat,
    owner: Seq<char>,
) -> EmbedView {
    EmbedView {
        title: Some(name),
        thumbnail: Some(
            match icon {
                Some(i) => i,
                None => Seq::empty(),
            },
        ),
        fields: seq![
            block_field("Member count"@, decimal(member_count)),
            block_field("Owner"@, owner),
        ],
        ..base_embed()
    }
}

/// The log line of a member giving itself a role (`remove` false) or taking one away.
pub open spec fn self_role_log(
    remove: bool,
    author: Seq<char>,
    role: Seq<char>,
    member: Seq<char>,
) -> Seq<char> {
    if remove {
        author + " removed role "@ + role + " from user "@ + member
    } else {
        author + " gave user "@ + member + " role "@ + role
    }
}

/// The lines that list the warns of a member, one per line, oldest first.
pub open spec fn warn_lines(warns: Seq<Seq<char>>) -> Seq<char>
    decreases warns.len(),
{
    if warns.len() == 0 {
        Seq::empty()
    } else {
        warn_lines(warns.drop_last()) + warns.last() + "\n"@
    }
}

/// The embed that lists a member's own warns.
pub open spec fn warns_embed(warns: Seq<Seq<char>>) -> EmbedView {
    EmbedView {
        title: Some("Warns:"@),
        description: Some(
            if warn_lines(warns).len() > 0 {
                warn_lines(warns)
            } else {
                "You have no warns. Congrats."@
            },
        ),
        ..base_embed()
    }
}

/// `i` is the position of the first member registered under `tag`.
pub open spec fn is_first_named(users: Seq<MemberView>, tag: Seq<char>, i: int) -> bool {
    is_first_where(users, |m: MemberView| m.username == tag, i)
}

/// A user's description is titled with its name and pictured with its avatar, and its
/// fields are, in order: the tag, the nickname (`None` without one), whether it is a bot,
/// the date it joined the guild under "Joined" and the date it created its account
/// under "Created Account".
pub proof fn lemma_user_info_fields(
    name: Seq<char>,
    tag: Seq<char>,
    face: Seq<char>,
    nick: Option<Seq<char>>,
    bot: bool,
    joined: Seq<char>,
    created: Seq<char>,
)
    ensures
        ({
            let e = user_info_embed(name, tag, face, nick, bot, joined, created);
            &&& e.title == Some(name)
            &&& e.thumbnail == Some(face)
            &&& e.fields.len() == 5
            &&& e.fields[0] == ("Tag"@, tag, false)
            &&& e.fields[1] == ("Nickname"@, if nick is Some { nick->0 } else { "None"@ }, false)
            &&& e.fields[2] == ("Bot?"@, bool_text(bot), false)
            &&& e.fields[3] == ("Joined"@, joined, false)
            &&& e.fields[4] == ("Created Account"@, created, false)
        }),
{
}

/// The guild's description is titled with the guild's name, and its fields are the
/// member count, in decimal, and the owner.
pub proof fn lemma_server_info_fields(
    name: Seq<char>,
    icon: Option<Seq<char>>,
    member_count: nat,
    owner: Seq<char>,
)
    ensures
        ({
            let e = server_info_embed(name, icon, member_count, owner);
            &&& e.title == Some(name)
            &&& e.thumbnail == Some(if icon is Some { icon->0 } else { Seq::<char>::empty() })
            &&& e.fields.len() == 2
            &&& e.fields[0] == ("Member count"@, decimal(member_count), false)
            &&& e.fields[1] == ("Owner"@, owner, false)
        }),
{
}

/// The list of commands for every member.
pub fn help_op() -> (e: Embed)
    ensures
        e@ == help_embed(),
{
    let mut e = create_embed();
    e.set_title(String::from_str("Commands list"));
    e.add_block_field("&&help", "Displays this menu");
    e.add_block_field("&&about", "Displays some information about the bot");
    e.add_block_field("&&user_info <@user>", "Displays some information about the user");
    e.add_block_field("&&server_info", "Displays some information about the server");
    e.add_block_field("&&add_role <role>", "Give yourself a role");
    e.add_block_field("&&remove_role <role>", "Remove a role from yourself");
    e.add_block_field("&&roles_list", "See list of available roles");
    e.add_block_field("&&my_warns", "See what warns you have, if any");
    e.add_block_field("&&ping", "Send ping");
    assert(e@ =~= help_embed());
    e
}

/// Some information about the bot.
pub fn about_op() -> (e: Embed)
    ensures
        e@ == about_embed(),
{
    let mut e = create_embed();
    e.set_title(String::from_str("About Mechanus"));
    e.add_block_field("Overview", "Mechanus is a highly configurable administration bot, designed to help with all matters of running a server. User and server metadata are stored in a json file specific to the server, be sure to run &&initialize to create this file as few commands function without it. When a user joins, you must &&register_user them to enter them into the system, or enable automatic registration. See &&config_help for more information.");
    e.add_block_field("For users", "Mechanus provides several utilities to aid you in server life, including adding and removing roles from yourself and retrieving information about other users. Type &&help for more information");
    e.add_block_field("For admins", "Mechanus provide a whole host of functions for server administration, including logging, message purging, giving roles to new users upon arrival, and warning. Type &&admin_help for more info");
    e.add_block_field("Configuration", "Mechanus can be configured in many ways, including whether to use manual registration, what roles are banned from public use, what channel messages should be logged in, and more. Type &&config_help for more info");
    e.set_footer(String::from_str("Contact @Starfall#7832 for more information"));
    assert(e@ =~= about_embed());
    e
}

/// The user and the guild that `user_info` describes: `token` is the command's first
/// argument and `guild` the guild of its message. `Err("Could not parse to user")` when
/// the argument names no user, else `Err("Could not find guild")` when the message came
/// from no guild; otherwise the user's id and the guild's id.
pub fn user_info_target(token: Option<&str>, guild: Option<u64>) -> (r: Result<(u64, u64), String>)
    requires
        token matches Some(t) ==> !user_id_parse_panics(t@),
    ensures
        match token_user(token) {
            None => r matches Err(e) && e@ == "Could not parse to user"@,
            Some(uid) => match guild {
                None => r matches Err(e) && e@ == "Could not find guild"@,
                Some(gid) => r == Ok::<(u64, u64), String>((uid as u64, gid)),
            },
        },
{
    let user = match parse_user_arg(token) {
        Some(u) => u,
        None => {
            return Err(String::from_str("Could not parse to user"));
        },
    };
    match guild {
        Some(g) => Ok((user, g)),
        None => Err(String::from_str("Could not find guild")),
    }
}

/// Describes a user: its name, avatar, tag, nickname in the guild (`None` when it has
/// none), whether it is a bot, and when it joined the guild and created its account.
pub fn user_info_op(
    user: &UserInfo,
    face: String,
    nick: Option<String>,
    bot: bool,
    joined: String,
    created: String,
) -> (e: Embed)
    ensures
        e@ == user_info_embed(
            user.name@,
            user.tag@,
            face@,
            opt_view(nick),
            bot,
            joined@,
            created@,
        ),
        e@.title == Some(user.name@),
        e@.thumbnail == Some(face@),
        e@.fields.len() == 5,
        e@.fields[0] == ("Tag"@, user.tag@, false),
        e@.fields[2] == ("Bot?"@, bool_text(bot), false),
        e@.fields[3] == ("Joined"@, joined@, false),
        e@.fields[4] == ("Created Account"@, created@, false),
{
    let ghost face_v = face@;
    let ghost joined_v = joined@;
    let ghost created_v = created@;
    let ghost nick_v = opt_view(nick);
    let mut e = create_embed();
    e.set_title(user.name.clone());
    e.set_thumbnail(face);
    e.add_field(String::from_str("Tag"), user.tag.clone(), false);
    let nick_text = match nick {
        Some(n) => n,
        None => String::from_str("None"),
    };
    e.add_field(String::from_str("Nickname"), nick_text, false);
    e.add_field(String::from_str("Bot?"), bool_to_text(bot), false);
    e.add_field(String::from_str("Joined"), joined, false);
    e.add_field(String::from_str("Created Account"), created, false);
    assert(e@ =~= user_info_embed(
        user.name@,
        user.tag@,
        face_v,
        nick_v,
        bot,
        joined_v,
        created_v,
    ));
    e
}

/// Describes the guild: its name, icon (empty when it has none), member count and
/// owner.
pub fn server_info_op(name: String, icon: Option<String>, member_count: usize, owner: String) -> (e:
    Embed)
    ensures
        e@ == server_info_embed(name@, opt_view(icon), member_count as nat, owner@),
        e@.title == Some(name@),
        e@.fields.len() == 2,
        e@.fields[0] == ("Member count"@, decimal(member_count as nat), false),
        e@.fields[1] == ("Owner"@, owner@, false),
{
    let ghost name_v = name@;
    let ghost icon_v = opt_view(icon);
    let ghost owner_v = owner@;
    let mut e = create_embed();
    e.set_title(name);
    let thumb = match icon {
        Some(i) => i,
        None => String::new(),
    };
    e.set_thumbnail(thumb);
    e.add_field(String::from_str("Member count"), u64_to_decimal(member_count as u64), false);
    e.add_field(String::from_str("Owner"), owner, false);
    assert(e@ =~= server_info_embed(name_v, icon_v, member_count as nat, owner_v));
    e
}

/// The log line of a member giving itself a role or taking one away.
pub fn self_role_message(remove: bool, author: &String, role: &String, member: &String) -> (s:
    String)
    ensures
        s@ == self_role_log(remove, author@, role@, member@),
{
    let mut s = author.clone();
    if remove {
        s.append(" removed role ");
        s.append(role.as_str());
        s.append(" from user ");
        s.append(member.as_str());
    } else {
        s.append(" gave user ");
        s.append(member.as_str());
        s.append(" role ");
        s.append(role.as_str());
    }
    assert(s@ =~= self_role_log(remove, author@, role@, member@));
    s
}

/// The role named `role_name`, that a member gives itself or takes away. The role must
/// exist (`Err("Could not find role")`), the registry must have been read (`Err("Could
/// not find registry")`, `registry` is `None`), and the role must be one that members
/// may take (`Err("This role is inaccessible with this command")`). The log line is
/// `self_role_message(remove, ..)`.
pub fn user_role_op(guild_roles: &Vec<GuildRole>, role_name: &String, registry: Option<&Server>) -> (r:
    Result<u64, String>)
    ensures
        match role_named(roles_view(guild_roles@), role_name@) {
            None => r matches Err(e) && e@ == "Could not find role"@,
            Some(id) => match registry {
                None => r matches Err(e) && e@ == "Could not find registry"@,
                Some(s) => if s@.allowed_roles.contains(id) {
                    r == Ok::<u64, String>(id)
                } else {
                    r matches Err(e) && e@ == "This role is inaccessible with this command"@
                },
            },
        },
{
    let role = match find_role_by_name(guild_roles, role_name) {
        Some(id) => id,
        None => {
            return Err(String::from_str("Could not find role"));
        },
    };
    let server = match registry {
        Some(s) => s,
        None => {
            return Err(String::from_str("Could not find registry"));
        },
    };
    if !has_role(&server.allowed_roles, role) {
        return Err(String::from_str("This role is inaccessible with this command"));
    }
    Ok(role)
}

/// The embed that lists the roles that members may take: the guild's roles that are
/// allowed, `@everyone` left out.
pub fn roles_list_op(server: &Server, guild_roles: &Vec<GuildRole>) -> (e: Embed)
    ensures
        e@ == (EmbedView {
            title: Some("Available roles"@),
            description: Some(role_listing(roles_view(guild_roles@), server@.allowed_roles)),
            ..base_embed()
        }),
{
    let mut e = create_embed();
    e.set_title(String::from_str("Available roles"));
    e.set_description(list_roles(guild_roles, &server.allowed_roles));
    e
}

/// Lists warns one per line, oldest first.
pub fn warns_text(warns: &Vec<String>) -> (s: String)
    ensures
        s@ == warn_lines(strings_view(warns@)),
{
    let ghost wv = strings_view(warns@);
    let mut s = String::new();
    let mut i: usize = 0;
    proof {
        reveal_strlit("\n");
        assert(wv.take(0) =~= Seq::<Seq<char>>::empty());
    }
    while i < warns.len()
        invariant
            i <= warns.len(),
            wv == strings_view(warns@),
            s@ == warn_lines(wv.take(i as int)),
        decreases warns.len() - i,
    {
        proof {
            assert(wv.take(i + 1).drop_last() =~= wv.take(i as int));
            assert(wv.take(i + 1).last() == wv[i as int]);
        }
        s.append(warns[i].as_str());
        s.append("\n");
        i = i + 1;
    }
    assert(wv.take(warns.len() as int) =~= wv);
    s
}

/// The embed that lists the warns of the member registered under `tag` (the first one,
/// if several are). `Err("Could not find you in the registry")` when none is.
pub fn my_warns_op(server: &Server, tag: &String) -> (r: Result<Embed, String>)
    ensures
        has_member_named(server@.users, tag@) <==> r is Ok,
        r matches Ok(e) ==> e@ == warns_embed(
            server@.users[choose|i: int| is_first_named(server@.users, tag@, i)].warns,
        ),
        r matches Err(m) ==> m@ == "Could not find you in the registry"@,
{
    let mut i: usize = 0;
    while i < server.users.len()
        invariant
            i <= server.users.len(),
            forall|j: int| 0 <= j < i ==> server@.users[j].username != tag@,
        decreases server.users.len() - i,
    {
        if server.users[i].username == *tag {
            let response = warns_text(&server.users[i].warns);
            let mut e = create_embed();
            e.set_title(String::from_str("Warns:"));
            if response.as_str().unicode_len() > 0 {
                e.set_description(response);
            } else {
                e.set_description(String::from_str("You have no warns. Congrats."));
            }
            proof {
                assert(is_first_named(server@.users, tag@, i as int));
                let k = choose|k: int| is_first_named(server@.users, tag@, k);
                lemma_first_where_unique(server@.users, |m: MemberView| m.username == tag@, i as int, k);
            }
            return Ok(e);
        }
        i = i + 1;
    }
    Err(String::from_str("Could not find you in the registry"))
}

/// The answer to a ping.
pub fn ping_op() -> (s: String)
    ensures
        s@ == "Pong!"@,
{
    String::from_str("Pong!")
}

/// A warn shows in the warned member's own list of warns, as its last line.
pub proof fn lemma_warn_shows_in_my_warns(s: ServerView, tag: Seq<char>, reason: Seq<char>)
    requires
        has_member_named(s.users, tag),
    ensures
        ({
            let w = warned(s, tag, reason);
            let i = choose|i: int| is_first_named(w.users, tag, i);
            &&& is_first_named(s.users, tag, i)
            &&& warn_lines(w.users[i].warns) == warn_lines(s.users[i].warns) + reason + "\n"@
        }),
{
    let w = warned(s, tag, reason);
    let k = choose|k: int| 0 <= k < s.users.len() && s.users[k].username == tag;
    let m = lemma_first_where_exists(s.users, |m: MemberView| m.username == tag, k);
    assert(is_first_named(w.users, tag, m)) by {
        assert forall|j: int| 0 <= j < m implies w.users[j].username != tag by {
            assert(w.users[j] == warned_member(s.users[j], tag, reason));
        }
        assert(w.users[m] == warned_member(s.users[m], tag, reason));
    }
    let i = choose|i: int| is_first_named(w.users, tag, i);
    lemma_first_where_unique(w.users, |m: MemberView| m.username == tag, i, m);
    let ws = s.users[m].warns.push(reason);
    assert(w.users[m].warns == ws);
    assert(ws.drop_last() =~= s.users[m].warns);
}

/// The role that a name designates has that name, and a name designates a role
/// whenever some role of the guild has it.
pub proof fn lemma_role_named_is_named(roles: Seq<(u64, Seq<char>)>, name: Seq<char>)
    ensures
        role_named(roles, name) is Some <==> has_role_named(roles, name),
        role_named(roles, name) matches Some(id) ==> exists|i: int|
            0 <= i < roles.len() && roles[i] == (id, name),
{
    if has_role_named(roles, name) {
        let k = choose|k: int| 0 <= k < roles.len() && roles[k].1 == name;
        let m = lemma_last_where_exists(roles, |r: (u64, Seq<char>)| r.1 == name, k);
        assert(is_last_named(roles, name, m));
        let i = choose|i: int| is_last_named(roles, name, i);
        assert(is_last_named(roles, name, i));
        assert(roles[i] == (roles[i].0, name));
    }
}

} // verus!
