use mechanus_bot::commands::admin_commands::{
    admin_help_op, ban_op, deregister_user_op, forgive_all_op, forgive_op, get_warns_op, kick_op,
    mass_register_op, purge_log, purge_op, register_user_op, role_log, role_op,
    roles_given_on_registration, warn_op,
};
use mechanus_bot::commands::config_commands::{
    add_allowed_role_op, add_start_role_op, config_help_op, initialize_op, logging_channel_log,
    remove_allowed_role_op, remove_start_role_op, set_logging_channel_op, start_roles_list_op,
};
use mechanus_bot::commands::user_commands::{
    about_op, help_op, my_warns_op, ping_op, roles_list_op, self_role_message, server_info_op,
    user_info_op, user_info_target, user_role_op,
};
use mechanus_bot::commands::{
    parse_channel_arg, parse_user_arg, user_argument, user_token_panics, UserInfo,
};
use mechanus_bot::embed::{create_embed, Embed};
use mechanus_bot::registry::{Member, Server};
use mechanus_bot::roles::{find_role_by_name, list_roles, GuildRole};

fn s(x: &str) -> String {
    x.to_string()
}

fn user(id: u64, name: &str, disc: &str) -> UserInfo {
    UserInfo { id, name: s(name), tag: format!("{}#{}", name, disc) }
}

fn guild_roles() -> Vec<GuildRole> {
    vec![
        GuildRole { id: 1, name: s("@everyone") },
        GuildRole { id: 2, name: s("Gamer") },
        GuildRole { id: 3, name: s("Artist") },
        GuildRole { id: 4, name: s("Gamer") },
    ]
}

fn field_names(e: &Embed) -> Vec<String> {
    e.fields.iter().map(|f| f.name.clone()).collect()
}

#[test]
fn base_embed_is_cyan() {
    let e = create_embed();
    assert_eq!(e.colour, 0x00ffff);
    assert!(e.title.is_none() && e.description.is_none() && e.fields.is_empty());
}

#[test]
fn help_lists_member_commands() {
    let e = help_op();
    assert_eq!(e.title, Some(s("Commands list")));
    assert_eq!(e.fields.len(), 9);
    assert_eq!(e.fields[0].name, "&&help");
    assert_eq!(e.fields[0].value, "Displays this menu");
    assert_eq!(e.fields[8].name, "&&ping");
    assert!(e.fields.iter().all(|f| !f.inline));
    assert_eq!(e.colour, 0x00ffff);
}

#[test]
fn about_has_footer() {
    let e = about_op();
    assert_eq!(e.title, Some(s("About Mechanus")));
    assert_eq!(field_names(&e), vec![s("Overview"), s("For users"), s("For admins"), s("Configuration")]);
    assert_eq!(e.footer, Some(s("Contact @Starfall#7832 for more information")));
}

#[test]
fn admin_and_config_help() {
    let e = admin_help_op();
    assert_eq!(e.fields.len(), 14);
    assert_eq!(e.fields[13].name, "&&ban <@user> <reason>");
    assert_eq!(e.footer, Some(s("[r] = requires manual registration to be enabled\n")));
    let c = config_help_op();
    assert_eq!(c.fields.len(), 9);
    assert_eq!(c.fields[8].value, "Set which channel messages are logged in");
}

#[test]
fn ping_answers_pong() {
    assert_eq!(ping_op(), "Pong!");
}

#[test]
fn find_role_takes_last_of_name() {
    let roles = guild_roles();
    assert_eq!(find_role_by_name(&roles, &s("Gamer")), Some(4));
    assert_eq!(find_role_by_name(&roles, &s("Artist")), Some(3));
    assert_eq!(find_role_by_name(&roles, &s("Nope")), None);
}

#[test]
fn list_roles_skips_everyone_and_others() {
    let roles = guild_roles();
    assert_eq!(list_roles(&roles, &vec![1, 3, 4]), "Artist\nGamer\n");
    assert_eq!(list_roles(&roles, &vec![]), "");
}

#[test]
fn user_info_embed_fields() {
    let u = user(9, "carol", "0003");
    let e = user_info_op(&u, s("http://face"), None, false, s("2020-01-01"), s("2019-01-01"));
    assert_eq!(e.title, Some(s("carol")));
    assert_eq!(e.thumbnail, Some(s("http://face")));
    assert_eq!(field_names(&e), vec![s("Tag"), s("Nickname"), s("Bot?"), s("Joined"), s("Created Account")]);
    assert_eq!(e.fields[0].value, "carol#0003");
    assert_eq!(e.fields[1].value, "None");
    assert_eq!(e.fields[2].value, "false");
    let e = user_info_op(&u, s("f"), Some(s("cc")), true, s("j"), s("c"));
    assert_eq!(e.fields[1].value, "cc");
    assert_eq!(e.fields[2].value, "true");
}

#[test]
fn user_info_arguments() {
    assert_eq!(user_info_target(Some("<@9>"), Some(4)), Ok((9, 4)));
    assert_eq!(user_info_target(Some("x"), Some(4)), Err(s("Could not parse to user")));
    assert_eq!(user_info_target(None, None), Err(s("Could not parse to user")));
    assert_eq!(user_info_target(Some("9"), None), Err(s("Could not find guild")));
}

#[test]
fn server_info_embed_fields() {
    let e = server_info_op(s("Guild"), None, 123, s("owner"));
    assert_eq!(e.thumbnail, Some(s("")));
    assert_eq!(e.fields[0].name, "Member count");
    assert_eq!(e.fields[0].value, "123");
    assert_eq!(e.fields[1].value, "owner");
    let e = server_info_op(s("Guild"), Some(s("icon")), 0, s("o"));
    assert_eq!(e.thumbnail, Some(s("icon")));
    assert_eq!(e.fields[0].value, "0");
}

#[test]
fn user_role_errors_and_logs() {
    let roles = guild_roles();
    let mut server = Server::new();
    server.allowed_roles = vec![3];
    assert_eq!(user_role_op(&roles, &s("Nope"), Some(&server)), Err(s("Could not find role")));
    assert_eq!(user_role_op(&roles, &s("Artist"), None), Err(s("Could not find registry")));
    assert_eq!(
        user_role_op(&roles, &s("Gamer"), Some(&server)),
        Err(s("This role is inaccessible with this command"))
    );
    assert_eq!(user_role_op(&roles, &s("Artist"), Some(&server)), Ok(3));
    assert_eq!(
        self_role_message(false, &s("<@1>"), &s("Artist"), &s("dave")),
        "<@1> gave user dave role Artist"
    );
    assert_eq!(
        self_role_message(true, &s("<@1>"), &s("Artist"), &s("dave")),
        "<@1> removed role Artist from user dave"
    );
}

#[test]
fn roles_lists() {
    let roles = guild_roles();
    let mut server = Server::new();
    server.allowed_roles = vec![1, 2];
    server.start_roles = vec![3];
    let e = roles_list_op(&server, &roles);
    assert_eq!(e.title, Some(s("Available roles")));
    assert_eq!(e.description, Some(s("Gamer\n")));
    let e = start_roles_list_op(&server, &roles);
    assert_eq!(e.title, Some(s("Start roles")));
    assert_eq!(e.description, Some(s("Artist\n")));
}

#[test]
fn my_warns_lists_or_congratulates() {
    let mut server = Server::new();
    server.users.push(Member { username: s("a#1"), id: 1, warns: vec![s("x"), s("y")] });
    server.users.push(Member { username: s("b#2"), id: 2, warns: vec![] });
    let e = my_warns_op(&server, &s("a#1")).unwrap();
    assert_eq!(e.title, Some(s("Warns:")));
    assert_eq!(e.description, Some(s("x\ny\n")));
    let e = my_warns_op(&server, &s("b#2")).unwrap();
    assert_eq!(e.description, Some(s("You have no warns. Congrats.")));
    assert_eq!(my_warns_op(&server, &s("c#3")).err(), Some(s("Could not find you in the registry")));
}

#[test]
fn warn_then_my_warns_shows_reason() {
    let mut server = Server::new();
    let u = user(5, "eve", "0005");
    let a = s("<@1>");
    register_user_op(&mut server, &a, Some(&u)).unwrap();
    warn_op(&mut server, &a, &u, &s("Guild"), &s("spam"));
    let e = my_warns_op(&server, &u.tag).unwrap();
    assert_eq!(e.description, Some(s("spam\n")));
}

#[test]
fn user_arguments() {
    assert_eq!(parse_user_arg(Some("<@123>")), Some(123));
    assert_eq!(parse_user_arg(Some("<@!123>")), Some(123));
    assert_eq!(parse_user_arg(Some("456")), Some(456));
    assert_eq!(parse_user_arg(Some("+456")), Some(456));
    assert_eq!(parse_user_arg(Some("bob")), None);
    assert_eq!(parse_user_arg(Some("<@>")), None);
    assert_eq!(parse_user_arg(None), None);
    assert!(!user_token_panics("<@12>"));
    assert!(user_token_panics("<@12é"));
    assert!(!user_token_panics("é"));
}

#[test]
fn channel_arguments() {
    assert_eq!(parse_channel_arg(Some("<#77>")), Some(77));
    assert_eq!(parse_channel_arg(Some("77")), Some(77));
    assert_eq!(parse_channel_arg(Some("<#77")), None);
    assert_eq!(parse_channel_arg(Some("<@77>")), None);
    assert_eq!(parse_channel_arg(None), None);
}

#[test]
fn registration_commands() {
    let mut server = Server::new();
    let a = s("<@1>");
    let u = user(5, "eve", "0005");
    assert_eq!(register_user_op(&mut server, &a, None), Err(s("Please enter a valid user")));
    assert!(server.users.is_empty());
    server.start_roles = vec![8, 9];
    assert_eq!(
        register_user_op(&mut server, &a, Some(&u)),
        Ok((true, s("<@1> registered user eve"), vec![8, 9]))
    );
    assert_eq!(
        register_user_op(&mut server, &a, Some(&u)),
        Ok((false, s("<@1> registered user eve"), vec![8, 9]))
    );
    assert_eq!(roles_given_on_registration(&server), vec![8, 9]);
    assert_eq!(server.users.len(), 1);
    assert_eq!(server.users[0].username, "eve#0005");
    assert_eq!(deregister_user_op(&mut server, &a, &u), (true, s("<@1> deregistered user eve")));
    assert_eq!(deregister_user_op(&mut server, &a, &u), (false, s("<@1> deregistered user eve")));
    assert!(server.users.is_empty());
    let members = vec![user(5, "eve", "0005"), user(6, "fay", "0006"), user(5, "eve", "0005")];
    assert_eq!(mass_register_op(None, &mut server, &a, &members), Err(s("Invalid guild")));
    assert!(server.users.is_empty());
    assert_eq!(mass_register_op(Some(7), &mut server, &a, &members), Ok(s("<@1> registered all users")));
    assert_eq!(server.users.len(), 2);
    assert_eq!(server.users[1].id, 6);
}

#[test]
fn admin_role_command() {
    let roles = guild_roles();
    assert_eq!(role_op(Some("bob"), Some(&roles), &s("Artist")), Err(s("Please enter a valid user")));
    assert_eq!(role_op(None, Some(&roles), &s("Artist")), Err(s("Please enter a valid user")));
    assert_eq!(role_op(Some("<@5>"), None, &s("Artist")), Err(s("Could not find guild")));
    assert_eq!(role_op(Some("<@5>"), Some(&roles), &s("Nope")), Err(s("Role does not exist")));
    assert_eq!(role_op(Some("<@5>"), Some(&roles), &s("Artist")), Ok((5, 3)));
    assert_eq!(role_op(Some("5"), Some(&roles), &s("Gamer")), Ok((5, 4)));
    assert_eq!(role_log(true, &s("<@1>"), &s("Artist"), &s("x")), "<@1> gave user x role Artist");
    assert_eq!(role_log(false, &s("<@1>"), &s("Artist"), &s("x")), "<@1> removed role Artist from user x");
}

#[test]
fn user_argument_answers() {
    assert_eq!(user_argument(Some("<@!42>")), Ok(42));
    assert_eq!(user_argument(Some("x")), Err(s("Please enter a valid user")));
    assert_eq!(user_argument(None), Err(s("Please enter a valid user")));
}

#[test]
fn purge_command() {
    assert_eq!(purge_op(Some("25")), Ok(25));
    assert_eq!(purge_op(Some("+3")), Ok(3));
    assert_eq!(purge_op(Some("-1")), Err(s("Invalid quantity")));
    assert_eq!(purge_op(Some("")), Err(s("Invalid quantity")));
    assert_eq!(purge_op(None), Err(s("Invalid quantity")));
    assert_eq!(purge_log(&s("<@1>"), 25, &s("general")), "<@1> purged 25 messages in general");
}

#[test]
fn warn_forgive_commands() {
    let mut server = Server::new();
    let a = s("<@1>");
    let u = user(5, "eve", "0005");
    register_user_op(&mut server, &a, Some(&u)).unwrap();
    let (dm, log) = warn_op(&mut server, &a, &u, &s("Guild"), &s("be \"nice\""));
    assert_eq!(
        dm,
        "You have been warned on Guild for reason \"be \\\"nice\\\"\". Please behave better in the future"
    );
    assert_eq!(log, "<@1> warned user eve for be \"nice\"");
    assert_eq!(server.users[0].warns, vec![s("be \"nice\"")]);
    let msgs = get_warns_op(&server, &u.tag);
    assert_eq!(msgs, vec![format!("```{:#?}```", vec![s("be \"nice\"")])]);
    assert_eq!(msgs[0], "```[\n    \"be \\\"nice\\\"\",\n]```");
    let (dm, log) = forgive_op(&mut server, &a, &u, &s("Guild"), &s("be \"nice\""));
    assert_eq!(dm, "You have been forgiven on Guild for warn \"be \\\"nice\\\"\". Congratulations");
    assert_eq!(log, "<@1> forgave user eve for be \"nice\"");
    assert!(server.users[0].warns.is_empty());
    warn_op(&mut server, &a, &u, &s("Guild"), &s("x"));
    let (dm, log) = forgive_all_op(&mut server, &a, &u, &s("Guild"));
    assert_eq!(dm, "You have been forgiven on Guild for all warns. Congratulations");
    assert_eq!(log, "<@1> forgave user eve for everything");
    assert!(server.users[0].warns.is_empty());
    assert!(get_warns_op(&server, &s("nobody#0")).is_empty());
    assert_eq!(get_warns_op(&server, &u.tag), vec![s("```[]```")]);
}

#[test]
fn kick_and_ban_messages() {
    let (dm, log) = kick_op(&s("<@1>"), &s("eve"), &s("Guild"), &s("spam"));
    assert_eq!(dm, "You have been kicked from Guild with reason \"spam\". Please behave better in the future");
    assert_eq!(log, "<@1> kicked user eve for spam");
    let (count, dm, log) = ban_op(Some("7"), &s("<@1>"), &s("eve"), &s("Guild"), &s("spam")).unwrap();
    assert_eq!(count, 7);
    assert_eq!(dm, "You have been banned from Guild with reason \"spam\". Please behave better in the future");
    assert_eq!(log, "<@1> banned user eve for spam");
    let e = Err(s("Please provide a delete count"));
    assert_eq!(ban_op(Some("256"), &s("<@1>"), &s("eve"), &s("Guild"), &s("spam")), e);
    assert_eq!(ban_op(None, &s("<@1>"), &s("eve"), &s("Guild"), &s("spam")), e);
}

#[test]
fn initialize_command() {
    assert_eq!(initialize_op(true, s("G"), 3).err(), Some(s("Already initialized")));
    let server = initialize_op(false, s("G"), 3).ok().unwrap();
    assert_eq!(server.name, "G");
    assert_eq!(server.id, 3);
    assert!(server.users.is_empty());
}

#[test]
fn role_list_commands() {
    let roles = guild_roles();
    let mut server = Server::new();
    let a = s("dave");
    assert_eq!(add_start_role_op(&mut server, &roles, &s("Nope"), &a), Err(s("Could not find role")));
    assert_eq!(
        add_start_role_op(&mut server, &roles, &s("Artist"), &a),
        Ok((3, s("dave added role Artist to start roles")))
    );
    assert_eq!(
        add_start_role_op(&mut server, &roles, &s("Artist"), &a),
        Err(s("Role already a starting role"))
    );
    assert_eq!(
        remove_start_role_op(&mut server, &roles, &s("Artist"), &a),
        Ok((3, s("dave removed role Artist from start roles")))
    );
    assert!(server.start_roles.is_empty());
    assert_eq!(
        remove_start_role_op(&mut server, &roles, &s("Artist"), &a),
        Err(s("Unable to find role in starting roles"))
    );
    assert_eq!(
        add_allowed_role_op(&mut server, &roles, &s("Gamer"), &a),
        Ok((4, s("dave added role Gamer to allowed roles")))
    );
    assert_eq!(server.allowed_roles, vec![4]);
    assert_eq!(
        remove_allowed_role_op(&mut server, &roles, &s("Gamer"), &a),
        Ok((4, s("dave removed role Gamer from allowed roles")))
    );
    assert_eq!(
        remove_allowed_role_op(&mut server, &roles, &s("Gamer"), &a),
        Err(s("Unable to find role in starting roles"))
    );
}

#[test]
fn logging_channel_command() {
    let mut server = Server::new();
    assert_eq!(set_logging_channel_op(&mut server, Some("<#99>")), Ok(99));
    assert_eq!(server.log_channel, 99);
    assert_eq!(set_logging_channel_op(&mut server, Some("x")), Err(s("Invalid channel id")));
    assert_eq!(set_logging_channel_op(&mut server, None), Err(s("Invalid channel id")));
    assert_eq!(server.log_channel, 99);
    assert_eq!(logging_channel_log(&s("dave"), &s("logs")), "dave set channel logs as logging channel");
}
