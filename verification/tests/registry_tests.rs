use mechanus_bot::registry::{
    add_allowed_role, add_start_role, deregister, forgive, forgive_all, forgive_applies, get_id,
    has_role, register, remove_allowed_role, remove_start_role, set_logging_channel, warn, Member,
    Server,
};

fn s(x: &str) -> String {
    x.to_string()
}

fn sample() -> Server {
    let mut server = Server::new();
    server.name = s("Guild");
    server.id = 7;
    server.users.push(Member { username: s("alice#0001"), id: 1, warns: vec![] });
    server.users.push(Member { username: s("bob#0002"), id: 2, warns: vec![s("spam")] });
    server
}

fn tags(server: &Server) -> Vec<String> {
    server.users.iter().map(|m| m.username.clone()).collect()
}

#[test]
fn new_server_is_empty() {
    let server = Server::new();
    assert_eq!(server.name, "");
    assert_eq!(server.id, 0);
    assert_eq!(server.log_channel, 0);
    assert!(server.users.is_empty());
    assert!(server.start_roles.is_empty());
    assert!(server.allowed_roles.is_empty());
}

#[test]
fn get_id_reads_the_guild() {
    let mut holder = 5u64;
    assert_eq!(get_id(Some(42), &mut holder), Ok(()));
    assert_eq!(holder, 42);
    let mut holder = 5u64;
    assert_eq!(get_id(None, &mut holder), Err(s("Invalid guild")));
    assert_eq!(holder, 5);
}

#[test]
fn register_appends_new_member() {
    let mut server = sample();
    assert!(register(&mut server, &s("carol#0003"), 3));
    assert_eq!(tags(&server), vec![s("alice#0001"), s("bob#0002"), s("carol#0003")]);
    assert_eq!(server.users[2].id, 3);
    assert!(server.users[2].warns.is_empty());
}

#[test]
fn register_is_idempotent() {
    let mut server = sample();
    assert!(register(&mut server, &s("carol#0003"), 3));
    assert!(!register(&mut server, &s("carol#0003"), 99));
    assert_eq!(server.users.len(), 3);
    assert_eq!(server.users[2].id, 3);
}

#[test]
fn register_existing_tag_changes_nothing() {
    let mut server = sample();
    assert!(!register(&mut server, &s("bob#0002"), 5));
    assert_eq!(server.users.len(), 2);
    assert_eq!(server.users[1].id, 2);
    assert_eq!(server.users[1].warns, vec![s("spam")]);
}

#[test]
fn deregister_undoes_register() {
    let mut server = sample();
    register(&mut server, &s("carol#0003"), 3);
    assert!(deregister(&mut server, 3));
    assert_eq!(tags(&server), vec![s("alice#0001"), s("bob#0002")]);
}

#[test]
fn deregister_removes_only_first_with_id() {
    let mut server = sample();
    server.users.push(Member { username: s("other#0009"), id: 1, warns: vec![] });
    assert!(deregister(&mut server, 1));
    assert_eq!(tags(&server), vec![s("bob#0002"), s("other#0009")]);
}

#[test]
fn deregister_unknown_changes_nothing() {
    let mut server = sample();
    assert!(!deregister(&mut server, 77));
    assert_eq!(server.users.len(), 2);
}

#[test]
fn warn_adds_newest_warn() {
    let mut server = sample();
    warn(&mut server, &s("bob#0002"), &s("flood"));
    assert_eq!(server.users[1].warns, vec![s("spam"), s("flood")]);
    assert!(server.users[0].warns.is_empty());
}

#[test]
fn warn_unknown_tag_changes_nothing() {
    let mut server = sample();
    warn(&mut server, &s("nobody#0000"), &s("flood"));
    assert!(server.users[0].warns.is_empty());
    assert_eq!(server.users[1].warns, vec![s("spam")]);
}

#[test]
fn forgive_undoes_warn() {
    let mut server = sample();
    warn(&mut server, &s("alice#0001"), &s("rude"));
    assert!(forgive_applies(&server, &s("alice#0001"), &s("rude")));
    forgive(&mut server, &s("alice#0001"), &s("rude"));
    assert!(server.users[0].warns.is_empty());
}

#[test]
fn forgive_removes_oldest_matching_warn() {
    let mut server = sample();
    server.users[1].warns = vec![s("a"), s("b"), s("a")];
    forgive(&mut server, &s("bob#0002"), &s("a"));
    assert_eq!(server.users[1].warns, vec![s("b"), s("a")]);
}

#[test]
fn forgive_applies_only_when_every_match_has_the_warn() {
    let server = sample();
    assert!(!forgive_applies(&server, &s("alice#0001"), &s("spam")));
    assert!(forgive_applies(&server, &s("bob#0002"), &s("spam")));
    assert!(forgive_applies(&server, &s("nobody#0000"), &s("spam")));
}

#[test]
fn forgive_all_clears_matching_members() {
    let mut server = sample();
    server.users[0].warns = vec![s("x")];
    forgive_all(&mut server, &s("bob#0002"));
    assert!(server.users[1].warns.is_empty());
    assert_eq!(server.users[0].warns, vec![s("x")]);
}

#[test]
fn start_roles_add_and_remove() {
    let mut server = sample();
    assert_eq!(add_start_role(&mut server, 10), Ok(()));
    assert_eq!(add_start_role(&mut server, 11), Ok(()));
    assert_eq!(add_start_role(&mut server, 10), Err(s("Role already a starting role")));
    assert_eq!(server.start_roles, vec![10, 11]);
    assert_eq!(remove_start_role(&mut server, 10), Ok(()));
    assert_eq!(server.start_roles, vec![11]);
    assert_eq!(
        remove_start_role(&mut server, 10),
        Err(s("Unable to find role in starting roles"))
    );
    assert_eq!(server.start_roles, vec![11]);
}

#[test]
fn start_role_remove_undoes_add() {
    let mut server = sample();
    server.start_roles = vec![3, 4];
    add_start_role(&mut server, 5).unwrap();
    remove_start_role(&mut server, 5).unwrap();
    assert_eq!(server.start_roles, vec![3, 4]);
}

#[test]
fn allowed_roles_add_and_remove() {
    let mut server = sample();
    assert_eq!(add_allowed_role(&mut server, 20), Ok(()));
    assert_eq!(add_allowed_role(&mut server, 20), Err(s("Role already a starting role")));
    assert!(has_role(&server.allowed_roles, 20));
    assert_eq!(remove_allowed_role(&mut server, 20), Ok(()));
    assert!(!has_role(&server.allowed_roles, 20));
    assert_eq!(
        remove_allowed_role(&mut server, 20),
        Err(s("Unable to find role in starting roles"))
    );
    assert!(server.start_roles.is_empty());
}

#[test]
fn logging_channel_is_set() {
    let mut server = sample();
    set_logging_channel(&mut server, 555);
    assert_eq!(server.log_channel, 555);
    assert_eq!(server.users.len(), 2);
}
