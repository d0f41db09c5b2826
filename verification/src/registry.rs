use vstd::prelude::*;

use crate::seqs::{is_first_where, lemma_first_where_exists, lemma_first_where_unique};

verus! {

/// A registered member of a guild: the tag it was registered under, its user id
/// and the reasons of the warns it has collected, oldest first.
pub struct Member {
    pub username: String,
    pub id: u64,
    pub warns: Vec<String>,
}

/// The registry of one guild, as the bot keeps it between commands.
pub struct Server {
    pub name: String,
    pub id: u64,
    pub log_channel: u64,
    pub users: Vec<Member>,
    pub start_roles: Vec<u64>,
    pub allowed_roles: Vec<u64>,
}

#[verifier::ext_equal]
pub struct MemberView {
    pub username: Seq<char>,
    pub id: u64,
    pub warns: Seq<Seq<char>>,
}

#[verifier::ext_equal]
pub struct ServerView {
    pub name: Seq<char>,
    pub id: u64,
    pub log_channel: u64,
    pub users: Seq<MemberView>,
    pub start_roles: Seq<u64>,
    pub allowed_roles: Seq<u64>,
}

pub open spec fn strings_view(v: Seq<String>) -> Seq<Seq<char>> {
    v.map_values(|s: String| s@)
}

pub open spec fn members_view(v: Seq<Member>) -> Seq<MemberView> {
    v.map_values(|m: Member| m@)
}

impl View for Member {
    type V = MemberView;

    open spec fn view(&self) -> MemberView {
        MemberView { username: self.username@, id: self.id, warns: strings_view(self.warns@) }
    }
}

impl View for Server {
    type V = ServerView;

    open spec fn view(&self) -> ServerView {
        ServerView {
            name: self.name@,
            id: self.id,
            log_channel: self.log_channel,
            users: members_view(self.users@),
            start_roles: self.start_roles@,
            allowed_roles: self.allowed_roles@,
        }
    }
}

// ---------------------------------------------------------------------------
// The model: what each operation does to a registry.
// ---------------------------------------------------------------------------
/// `i` is the first position of `x` in `s`.
pub open spec fn is_first_index<A>(s: Seq<A>, x: A, i: int) -> bool {
    is_first_where(s, |y: A| y == x, i)
}

/// `s` without the first occurrence of `x`; `s` itself when `x` does not occur.
pub open spec fn remove_first<A>(s: Seq<A>, x: A) -> Seq<A> {
    if s.contains(x) {
        s.remove(choose|i: int| is_first_index(s, x, i))
    } else {
        s
    }
}

/// Some member is registered under `tag`.
pub open spec fn has_member_named(users: Seq<MemberView>, tag: Seq<char>) -> bool {
    exists|i: int| 0 <= i < users.len() && users[i].username == tag
}

/// `i` is the position of the first member with user id `id`.
pub open spec fn is_first_with_id(users: Seq<MemberView>, id: u64, i: int) -> bool {
    is_first_where(users, |m: MemberView| m.id == id, i)
}

pub open spec fn has_member_with_id(users: Seq<MemberView>, id: u64) -> bool {
    exists|i: int| 0 <= i < users.len() && users[i].id == id
}

pub open spec fn with_users(s: ServerView, users: Seq<MemberView>) -> ServerView {
    ServerView { users, ..s }
}

pub open spec fn new_member(tag: Seq<char>, id: u64) -> MemberView {
    MemberView { username: tag, id, warns: Seq::empty() }
}

/// The registry after registering the user `tag` with id `id`: unchanged when a member
/// is already registered under that tag, else the new member comes last, without warns.
pub open spec fn registered(s: ServerView, tag: Seq<char>, id: u64) -> ServerView {
    if has_member_named(s.users, tag) {
        s
    } else {
        with_users(s, s.users.push(new_member(tag, id)))
    }
}

/// The registry after deregistering the user with id `id`: the first member with
/// that id leaves; unchanged when there is none.
pub open spec fn deregistered(s: ServerView, id: u64) -> ServerView {
    if has_member_with_id(s.users, id) {
        with_users(s, s.users.remove(choose|i: int| is_first_with_id(s.users, id, i)))
    } else {
        s
    }
}

pub open spec fn warned_member(m: MemberView, tag: Seq<char>, reason: Seq<char>) -> MemberView {
    if m.username == tag {
        MemberView { warns: m.warns.push(reason), ..m }
    } else {
        m
    }
}

/// Every member registered under `tag` gets the warn `reason` as its newest warn.
pub open spec fn warned(s: ServerView, tag: Seq<char>, reason: Seq<char>) -> ServerView {
    with_users(s, s.users.map_values(|m: MemberView| warned_member(m, tag, reason)))
}

pub open spec fn forgiven_member(m: MemberView, tag: Seq<char>, reason: Seq<char>) -> MemberView {
    if m.username == tag {
        MemberView { warns: remove_first(m.warns, reason), ..m }
    } else {
        m
    }
}

/// Every member registered under `tag` loses its oldest warn with reason `reason`.
pub open spec fn forgiven(s: ServerView, tag: Seq<char>, reason: Seq<char>) -> ServerView {
    with_users(s, s.users.map_values(|m: MemberView| forgiven_member(m, tag, reason)))
}

/// Forgiving is defined: every member registered under `tag` has a warn `reason`.
pub open spec fn can_forgive(s: ServerView, tag: Seq<char>, reason: Seq<char>) -> bool {
    forall|i: int|
        0 <= i < s.users.len() && (#[trigger] s.users[i]).username == tag ==> s.users[i].warns.contains(
            reason,
        )
}

pub open spec fn cleared_member(m: MemberView, tag: Seq<char>) -> MemberView {
    if m.username == tag {
        MemberView { warns: Seq::empty(), ..m }
    } else {
        m
    }
}

/// Every member registered under `tag` loses all its warns.
pub open spec fn all_forgiven(s: ServerView, tag: Seq<char>) -> ServerView {
    with_users(s, s.users.map_values(|m: MemberView| cleared_member(m, tag)))
}

/// A role list after adding `role`, which must not be in it yet.
pub open spec fn role_added(roles: Seq<u64>, role: u64) -> Seq<u64> {
    if roles.contains(role) {
        roles
    } else {
        roles.push(role)
    }
}

/// A role list after removing `role`, which must be in it.
pub open spec fn role_removed(roles: Seq<u64>, role: u64) -> Seq<u64> {
    remove_first(roles, role)
}

// ---------------------------------------------------------------------------
// Helpers
// ---------------------------------------------------------------------------
proof fn lemma_remove_first_at<A>(s: Seq<A>, x: A, i: int)
    requires
        is_first_index(s, x, i),
    ensures
        remove_first(s, x) == s.remove(i),
{
    assert(s.contains(x));
    let k = choose|k: int| is_first_index(s, x, k);
    assert(is_first_index(s, x, k));
    lemma_first_where_unique(s, |y: A| y == x, i, k);
}

proof fn lemma_first_with_id_at(users: Seq<MemberView>, id: u64, i: int)
    requires
        is_first_with_id(users, id, i),
    ensures
        has_member_with_id(users, id),
        (choose|k: int| is_first_with_id(users, id, k)) == i,
{
    let k = choose|k: int| is_first_with_id(users, id, k);
    assert(is_first_with_id(users, id, k));
    lemma_first_where_unique(users, |m: MemberView| m.id == id, i, k);
}

/// Finds the first position of `x` in `v`.
fn position_of_string(v: &Vec<String>, x: &String) -> (r: Option<usize>)
    ensures
        r matches Some(i) ==> is_first_index(strings_view(v@), x@, i as int),
        r is None ==> !strings_view(v@).contains(x@),
{
    let mut i: usize = 0;
    while i < v.len()
        invariant
            i <= v.len(),
            forall|j: int| 0 <= j < i ==> strings_view(v@)[j] != x@,
        decreases v.len() - i,
    {
        if v[i] == *x {
            return Some(i);
        }
        i = i + 1;
    }
    None
}

/// Finds the first position of `x` in `v`.
fn position_of_u64(v: &Vec<u64>, x: u64) -> (r: Option<usize>)
    ensures
        r matches Some(i) ==> is_first_index(v@, x, i as int),
        r is None ==> !v@.contains(x),
{
    let mut i: usize = 0;
    while i < v.len()
        invariant
            i <= v.len(),
            forall|j: int| 0 <= j < i ==> v@[j] != x,
        decreases v.len() - i,
    {
        if v[i] == x {
            return Some(i);
        }
        i = i + 1;
    }
    None
}

impl Server {
    /// An empty registry: no name, id 0, log channel 0, no members and no roles.
    pub fn new() -> (s: Server)
        ensures
            s@ == (ServerView {
                name: Seq::empty(),
                id: 0,
                log_channel: 0,
                users: Seq::empty(),
                start_roles: Seq::empty(),
                allowed_roles: Seq::empty(),
            }),
    {
        let s = Server {
            name: String::new(),
            id: 0,
            log_channel: 0,
            users: Vec::new(),
            start_roles: Vec::new(),
            allowed_roles: Vec::new(),
        };
        assert(s@.users =~= Seq::<MemberView>::empty());
        s
    }
}

/// Gives the guild id of a message: `Ok` and the id in `holder` when the message came
/// from a guild, else `Err("Invalid guild")` and `holder` untouched.
pub fn get_id(guild_id: Option<u64>, holder: &mut u64) -> (r: Result<(), String>)
    ensures
        match guild_id {
            Some(id) => r is Ok && *final(holder) == id,
            None => r matches Err(e) && e@ == "Invalid guild"@ && *final(holder) == *old(holder),
        },
{
    match guild_id {
        Some(id) => {
            *holder = id;
            Ok(())
        },
        None => Err(String::from_str("Invalid guild")),
    }
}

/// Registers the user `tag` with id `user_id`; `true` when it was not registered yet.
pub fn register(server: &mut Server, tag: &String, user_id: u64) -> (added: bool)
    ensures
        added == !has_member_named(old(server)@.users, tag@),
        final(server)@ == registered(old(server)@, tag@, user_id),
{
    let mut i: usize = 0;
    while i < server.users.len()
        invariant
            i <= server.users.len(),
            forall|j: int| 0 <= j < i ==> members_view(server.users@)[j].username != tag@,
        decreases server.users.len() - i,
    {
        if server.users[i].username == *tag {
            assert(members_view(server.users@)[i as int].username == tag@);
            return false;
        }
        i = i + 1;
    }
    let ghost before = server@;
    server.users.push(Member { username: tag.clone(), id: user_id, warns: Vec::new() });
    proof {
        assert(strings_view(Seq::<String>::empty()) =~= Seq::<Seq<char>>::empty());
        assert(server@.users =~= before.users.push(new_member(tag@, user_id)));
    }
    true
}

/// Deregisters the first member with id `user_id`; `true` when there was one.
pub fn deregister(server: &mut Server, user_id: u64) -> (removed: bool)
    ensures
        removed == has_member_with_id(old(server)@.users, user_id),
        final(server)@ == deregistered(old(server)@, user_id),
{
    let ghost start = server@;
    let mut i: usize = 0;
    while i < server.users.len()
        invariant
            i <= server.users.len(),
            server@ == start,
            start == old(server)@,
            forall|j: int| 0 <= j < i ==> members_view(server.users@)[j].id != user_id,
        decreases server.users.len() - i,
    {
        if server.users[i].id == user_id {
            let ghost before = server@;
            proof {
                assert(is_first_with_id(before.users, user_id, i as int));
                lemma_first_with_id_at(before.users, user_id, i as int);
            }
            server.users.remove(i);
            assert(server@.users =~= before.users.remove(i as int));
            return true;
        }
        i = i + 1;
    }
    assert(!has_member_with_id(server@.users, user_id));
    false
}

/// Adds the warn `reason` to every member registered under `tag`.
pub fn warn(server: &mut Server, tag: &String, reason: &String)
    ensures
        final(server)@ == warned(old(server)@, tag@, reason@),
{
    let ghost start = server@;
    let mut i: usize = 0;
    while i < server.users.len()
        invariant
            i <= server.users.len(),
            server.users.len() == start.users.len(),
            server@.name == start.name,
            server@.id == start.id,
            server@.log_channel == start.log_channel,
            server@.start_roles == start.start_roles,
            server@.allowed_roles == start.allowed_roles,
            forall|j: int|
                0 <= j < i ==> server@.users[j] == warned_member(start.users[j], tag@, reason@),
            forall|j: int| i <= j < server.users.len() ==> server@.users[j] == start.users[j],
        decreases server.users.len() - i,
    {
        let ghost prev = server@.users;
        if server.users[i].username == *tag {
            let ghost before = server.users@;
            let mut m = server.users.remove(i);
            let ghost mv = m@;
            m.warns.push(reason.clone());
            assert(m@.warns =~= mv.warns.push(reason@));
            assert(m@ == warned_member(mv, tag@, reason@));
            server.users.insert(i, m);
            assert(server.users@ =~= before.update(i as int, m));
            assert(server@.users =~= prev.update(i as int, warned_member(mv, tag@, reason@)));
        } else {
            assert(warned_member(prev[i as int], tag@, reason@) == prev[i as int]);
        }
        i = i + 1;
    }
    assert(server@.users =~= start.users.map_values(
        |m: MemberView| warned_member(m, tag@, reason@),
    ));
}

/// Whether `forgive(server, tag, reason)` is defined: each member registered under `tag`
/// has a warn `reason`.
pub fn forgive_applies(server: &Server, tag: &String, reason: &String) -> (ok: bool)
    ensures
        ok == can_forgive(server@, tag@, reason@),
{
    let mut i: usize = 0;
    while i < server.users.len()
        invariant
            i <= server.users.len(),
            forall|j: int|
                0 <= j < i && (#[trigger] server@.users[j]).username == tag@
                    ==> server@.users[j].warns.contains(reason@),
        decreases server.users.len() - i,
    {
        if server.users[i].username == *tag {
            if position_of_string(&server.users[i].warns, reason).is_none() {
                assert(server@.users[i as int].username == tag@);
                return false;
            }
        }
        i = i + 1;
    }
    true
}

/// Removes the oldest warn `reason` from every member registered under `tag`.
pub fn forgive(server: &mut Server, tag: &String, reason: &String)
    requires
        can_forgive(old(server)@, tag@, reason@),
    ensures
        final(server)@ == forgiven(old(server)@, tag@, reason@),
{
    let ghost start = server@;
    let mut i: usize = 0;
    while i < server.users.len()
        invariant
            i <= server.users.len(),
            server.users.len() == start.users.len(),
            can_forgive(start, tag@, reason@),
            server@.name == start.name,
            server@.id == start.id,
            server@.log_channel == start.log_channel,
            server@.start_roles == start.start_roles,
            server@.allowed_roles == start.allowed_roles,
            forall|j: int|
                0 <= j < i ==> server@.users[j] == forgiven_member(start.users[j], tag@, reason@),
            forall|j: int| i <= j < server.users.len() ==> server@.users[j] == start.users[j],
        decreases server.users.len() - i,
    {
        let ghost prev = server@.users;
        if server.users[i].username == *tag {
            let ghost before = server.users@;
            let mut m = server.users.remove(i);
            let ghost mv = m@;
            assert(start.users[i as int] == mv);
            let pos = position_of_string(&m.warns, reason);
            match pos {
                Some(p) => {
                    m.warns.remove(p);
                    proof {
                        lemma_remove_first_at(mv.warns, reason@, p as int);
                        assert(m@.warns =~= mv.warns.remove(p as int));
                    }
                },
                None => {
                    assert(false);
                },
            }
            assert(m@ == forgiven_member(mv, tag@, reason@));
            server.users.insert(i, m);
            assert(server.users@ =~= before.update(i as int, m));
            assert(server@.users =~= prev.update(i as int, forgiven_member(mv, tag@, reason@)));
        } else {
            assert(forgiven_member(prev[i as int], tag@, reason@) == prev[i as int]);
        }
        i = i + 1;
    }
    assert(server@.users =~= start.users.map_values(
        |m: MemberView| forgiven_member(m, tag@, reason@),
    ));
}

/// Removes every warn from every member registered under `tag`.
pub fn forgive_all(server: &mut Server, tag: &String)
    ensures
        final(server)@ == all_forgiven(old(server)@, tag@),
{
    let ghost start = server@;
    let mut i: usize = 0;
    while i < server.users.len()
        invariant
            i <= server.users.len(),
            server.users.len() == start.users.len(),
            server@.name == start.name,
            server@.id == start.id,
            server@.log_channel == start.log_channel,
            server@.start_roles == start.start_roles,
            server@.allowed_roles == start.allowed_roles,
            forall|j: int| 0 <= j < i ==> server@.users[j] == cleared_member(start.users[j], tag@),
            forall|j: int| i <= j < server.users.len() ==> server@.users[j] == start.users[j],
        decreases server.users.len() - i,
    {
        let ghost prev = server@.users;
        if server.users[i].username == *tag {
            let ghost before = server.users@;
            let mut m = server.users.remove(i);
            let ghost mv = m@;
            m.warns = Vec::new();
            assert(m@.warns =~= Seq::<Seq<char>>::empty());
            assert(m@ == cleared_member(mv, tag@));
            server.users.insert(i, m);
            assert(server.users@ =~= before.update(i as int, m));
            assert(server@.users =~= prev.update(i as int, cleared_member(mv, tag@)));
        } else {
            assert(cleared_member(prev[i as int], tag@) == prev[i as int]);
        }
        i = i + 1;
    }
    assert(server@.users =~= start.users.map_values(|m: MemberView| cleared_member(m, tag@)));
}

/// Adds `role` to a role list unless it is in it already (`Err(already)` then).
fn add_role_to(roles: &mut Vec<u64>, role: u64, already: &str) -> (r: Result<(), String>)
    ensures
        old(roles)@.contains(role) ==> (r matches Err(e) && e@ == already@),
        !old(roles)@.contains(role) ==> r is Ok,
        final(roles)@ == role_added(old(roles)@, role),
{
    match position_of_u64(roles, role) {
        Some(_) => Err(String::from_str(already)),
        None => {
            roles.push(role);
            Ok(())
        },
    }
}

/// Removes `role` from a role list if it is in it (`Err(missing)` otherwise).
fn remove_role_from(roles: &mut Vec<u64>, role: u64, missing: &str) -> (r: Result<(), String>)
    ensures
        old(roles)@.contains(role) ==> r is Ok,
        !old(roles)@.contains(role) ==> (r matches Err(e) && e@ == missing@),
        final(roles)@ == role_removed(old(roles)@, role),
{
    match position_of_u64(roles, role) {
        Some(p) => {
            proof {
                lemma_remove_first_at(old(roles)@, role, p as int);
            }
            roles.remove(p);
            Ok(())
        },
        None => Err(String::from_str(missing)),
    }
}

/// Makes `role` a start role, given to members when they are registered.
/// `Err("Role already a starting role")` when it is one already.
pub fn add_start_role(server: &mut Server, role: u64) -> (r: Result<(), String>)
    ensures
        old(server)@.start_roles.contains(role) ==> (r matches Err(e) && e@ == "Role already a starting role"@),
        !old(server)@.start_roles.contains(role) ==> r is Ok,
        final(server)@ == (ServerView {
            start_roles: role_added(old(server)@.start_roles, role),
            ..old(server)@
        }),
{
    add_role_to(&mut server.start_roles, role, "Role already a starting role")
}

/// Makes `role` no longer a start role.
/// `Err("Unable to find role in starting roles")` when it is not one.
pub fn remove_start_role(server: &mut Server, role: u64) -> (r: Result<(), String>)
    ensures
        old(server)@.start_roles.contains(role) ==> r is Ok,
        !old(server)@.start_roles.contains(role) ==> (r matches Err(e) && e@ == "Unable to find role in starting roles"@),
        final(server)@ == (ServerView {
            start_roles: role_removed(old(server)@.start_roles, role),
            ..old(server)@
        }),
{
    remove_role_from(&mut server.start_roles, role, "Unable to find role in starting roles")
}

/// Makes `role` one that members may give and take themselves.
/// `Err("Role already a starting role")` when it is one already.
pub fn add_allowed_role(server: &mut Server, role: u64) -> (r: Result<(), String>)
    ensures
        old(server)@.allowed_roles.contains(role) ==> (r matches Err(e) && e@ == "Role already a starting role"@),
        !old(server)@.allowed_roles.contains(role) ==> r is Ok,
        final(server)@ == (ServerView {
            allowed_roles: role_added(old(server)@.allowed_roles, role),
            ..old(server)@
        }),
{
    add_role_to(&mut server.allowed_roles, role, "Role already a starting role")
}

/// Makes `role` no longer one that members may give and take themselves.
/// `Err("Unable to find role in starting roles")` when it is not one.
pub fn remove_allowed_role(server: &mut Server, role: u64) -> (r: Result<(), String>)
    ensures
        old(server)@.allowed_roles.contains(role) ==> r is Ok,
        !old(server)@.allowed_roles.contains(role) ==> (r matches Err(e) && e@ == "Unable to find role in starting roles"@),
        final(server)@ == (ServerView {
            allowed_roles: role_removed(old(server)@.allowed_roles, role),
            ..old(server)@
        }),
{
    remove_role_from(&mut server.allowed_roles, role, "Unable to find role in starting roles")
}

/// Makes `channel` the channel that the bot logs to.
pub fn set_logging_channel(server: &mut Server, channel: u64)
    ensures
        final(server)@ == (ServerView { log_channel: channel, ..old(server)@ }),
{
    server.log_channel = channel;
}

/// Whether `role` is in a role list.
pub fn has_role(roles: &Vec<u64>, role: u64) -> (r: bool)
    ensures
        r == roles@.contains(role),
{
    position_of_u64(roles, role).is_some()
}

// ---------------------------------------------------------------------------
// Laws
// ---------------------------------------------------------------------------
/// After registering a user, a member is registered under its tag.
pub proof fn lemma_register_records_member(s: ServerView, tag: Seq<char>, id: u64)
    ensures
        has_member_named(registered(s, tag, id).users, tag),
{
    if !has_member_named(s.users, tag) {
        let users = registered(s, tag, id).users;
        assert(users[users.len() - 1].username == tag);
    }
}

/// Registering changes only the members: the name, id, logging channel, start roles
/// (the roles a new member is given) and allowed roles stay as they were.
pub proof fn lemma_register_keeps_settings(s: ServerView, tag: Seq<char>, id: u64)
    ensures
        ({
            let r = registered(s, tag, id);
            &&& r.name == s.name
            &&& r.id == s.id
            &&& r.log_channel == s.log_channel
            &&& r.start_roles == s.start_roles
            &&& r.allowed_roles == s.allowed_roles
        }),
{
}

/// Registering the same tag twice registers it once.
pub proof fn lemma_register_idempotent(s: ServerView, tag: Seq<char>, a: u64, b: u64)
    ensures
        registered(registered(s, tag, a), tag, b) == registered(s, tag, a),
{
    lemma_register_records_member(s, tag, a);
}

/// Registering never puts two members under one tag.
pub proof fn lemma_register_keeps_tags_distinct(s: ServerView, tag: Seq<char>, id: u64)
    requires
        forall|i: int, j: int|
            0 <= i < j < s.users.len() ==> s.users[i].username != s.users[j].username,
    ensures
        ({
            let users = registered(s, tag, id).users;
            forall|i: int, j: int|
                0 <= i < j < users.len() ==> users[i].username != users[j].username
        }),
{
    let users = registered(s, tag, id).users;
    assert forall|i: int, j: int| 0 <= i < j < users.len() implies users[i].username
        != users[j].username by {
        if !has_member_named(s.users, tag) && j == s.users.len() {
            assert(users[i] == s.users[i]);
        }
    }
}

/// Deregistering a freshly registered user (a new tag and a new id) gives back the
/// registry it was registered in.
pub proof fn lemma_deregister_undoes_register(s: ServerView, tag: Seq<char>, id: u64)
    requires
        !has_member_named(s.users, tag),
        !has_member_with_id(s.users, id),
    ensures
        deregistered(registered(s, tag, id), id) == s,
{
    let r = registered(s, tag, id);
    let n = s.users.len() as int;
    assert(r.users == s.users.push(new_member(tag, id)));
    assert(is_first_with_id(r.users, id, n));
    lemma_first_with_id_at(r.users, id, n);
    assert(r.users.remove(n) =~= s.users);
}

/// When user ids are distinct, no member with the id is left after deregistering it.
pub proof fn lemma_deregister_removes_member(s: ServerView, id: u64)
    requires
        forall|i: int, j: int| 0 <= i < j < s.users.len() ==> s.users[i].id != s.users[j].id,
    ensures
        !has_member_with_id(deregistered(s, id).users, id),
{
    if has_member_with_id(s.users, id) {
        let k = choose|k: int| is_first_with_id(s.users, id, k);
        let w = choose|w: int| 0 <= w < s.users.len() && s.users[w].id == id;
        assert(is_first_with_id(s.users, id, k)) by {
            if !is_first_with_id(s.users, id, k) {
                let m = lemma_first_where_exists(s.users, |m: MemberView| m.id == id, w);
                assert(is_first_with_id(s.users, id, m));
            }
        }
        let users = deregistered(s, id).users;
        assert(users == s.users.remove(k));
        assert forall|i: int| 0 <= i < users.len() implies users[i].id != id by {
            if i < k {
                assert(users[i] == s.users[i]);
            } else {
                assert(users[i] == s.users[i + 1]);
            }
        }
    }
}

/// After a warn, forgiving that warn is always possible.
pub proof fn lemma_warn_enables_forgive(s: ServerView, tag: Seq<char>, reason: Seq<char>)
    ensures
        can_forgive(warned(s, tag, reason), tag, reason),
{
    let w = warned(s, tag, reason);
    assert forall|i: int| 0 <= i < w.users.len() && (#[trigger] w.users[i]).username == tag implies w.users[i].warns.contains(
        reason,
    ) by {
        let ws = w.users[i].warns;
        assert(ws[ws.len() - 1] == reason);
    }
}

/// Forgiving is possible exactly when every member registered under the tag holds a
/// warn with that reason, at any position among its warns (not only as its newest).
pub proof fn lemma_can_forgive_any_held_warn(s: ServerView, tag: Seq<char>, reason: Seq<char>)
    ensures
        can_forgive(s, tag, reason) <==> (forall|i: int|
            0 <= i < s.users.len() && (#[trigger] s.users[i]).username == tag ==> exists|j: int|
                0 <= j < s.users[i].warns.len() && #[trigger] s.users[i].warns[j] == reason),
{
}

/// Forgiving takes from a member registered under the tag its oldest warn with the
/// reason, wherever that warn stands, and keeps its other warns in their order; the
/// member's tag and id stay.
pub proof fn lemma_forgive_removes_oldest_match(
    s: ServerView,
    tag: Seq<char>,
    reason: Seq<char>,
    i: int,
    j: int,
)
    requires
        0 <= i < s.users.len(),
        s.users[i].username == tag,
        0 <= j < s.users[i].warns.len(),
        s.users[i].warns[j] == reason,
        forall|k: int| 0 <= k < j ==> s.users[i].warns[k] != reason,
    ensures
        forgiven(s, tag, reason).users.len() == s.users.len(),
        forgiven(s, tag, reason).users[i].warns == s.users[i].warns.remove(j),
        forgiven(s, tag, reason).users[i].username == tag,
        forgiven(s, tag, reason).users[i].id == s.users[i].id,
{
    assert(is_first_index(s.users[i].warns, reason, j));
    lemma_remove_first_at(s.users[i].warns, reason, j);
}

/// Forgiving a warn just given to members who had no warn with that reason gives back
/// the registry as it was before the warn.
pub proof fn lemma_forgive_undoes_warn(s: ServerView, tag: Seq<char>, reason: Seq<char>)
    requires
        forall|i: int|
            0 <= i < s.users.len() && (#[trigger] s.users[i]).username == tag ==> !s.users[i].warns.contains(
                reason,
            ),
    ensures
        forgiven(warned(s, tag, reason), tag, reason) == s,
{
    let w = warned(s, tag, reason);
    let f = forgiven(w, tag, reason);
    assert forall|i: int| 0 <= i < s.users.len() implies f.users[i] == s.users[i] by {
        let m = s.users[i];
        if m.username == tag {
            let ws = m.warns.push(reason);
            let n = m.warns.len() as int;
            assert(w.users[i].warns == ws);
            assert forall|j: int| 0 <= j < n implies ws[j] != reason by {
                assert(ws[j] == m.warns[j]);
            }
            assert(is_first_index(ws, reason, n));
            lemma_remove_first_at(ws, reason, n);
            assert(ws.remove(n) =~= m.warns);
        }
    }
    assert(f.users =~= s.users);
}

/// After forgiving everything, members registered under the tag have no warns and
/// every other member keeps its own.
pub proof fn lemma_forgive_all_clears(s: ServerView, tag: Seq<char>)
    ensures
        ({
            let f = all_forgiven(s, tag);
            &&& f.users.len() == s.users.len()
            &&& forall|i: int|
                0 <= i < s.users.len() ==> if s.users[i].username == tag {
                    f.users[i].warns.len() == 0 && f.users[i].id == s.users[i].id
                } else {
                    f.users[i] == s.users[i]
                }
        }),
{
}

/// Removing a role just added to a list that did not hold it gives back the list.
pub proof fn lemma_role_remove_undoes_add(roles: Seq<u64>, role: u64)
    requires
        !roles.contains(role),
    ensures
        role_removed(role_added(roles, role), role) == roles,
{
    let a = roles.push(role);
    let n = roles.len() as int;
    assert forall|j: int| 0 <= j < n implies a[j] != role by {
        assert(a[j] == roles[j]);
    }
    assert(is_first_index(a, role, n));
    lemma_remove_first_at(a, role, n);
    assert(a.remove(n) =~= roles);
}

/// A role list never holds a role twice: adding and removing keep it so, and a removed
/// role is gone.
pub proof fn lemma_roles_stay_distinct(roles: Seq<u64>, role: u64)
    requires
        roles.no_duplicates(),
    ensures
        role_added(roles, role).no_duplicates(),
        role_removed(roles, role).no_duplicates(),
        !role_removed(roles, role).contains(role),
        role_added(roles, role).contains(role),
{
    let a = role_added(roles, role);
    if !roles.contains(role) {
        assert(a[roles.len() as int] == role);
        assert forall|i: int, j: int| 0 <= i < a.len() && 0 <= j < a.len() && i != j implies a[i]
            != a[j] by {
            if i == roles.len() {
                assert(!roles.contains(a[j]) || a[j] != role);
            } else if j == roles.len() {
                assert(a[i] == roles[i]);
            }
        }
    }
    if roles.contains(role) {
        let w = choose|w: int| 0 <= w < roles.len() && roles[w] == role;
        assert(is_first_index(roles, role, w)) by {
            assert forall|j: int| 0 <= j < w implies roles[j] != role by {
                assert(roles[j] != roles[w]);
            }
        }
        lemma_remove_first_at(roles, role, w);
        let r = roles.remove(w);
        assert forall|i: int| 0 <= i < r.len() implies r[i] != role by {
            if i < w {
                assert(r[i] == roles[i]);
            } else {
                assert(r[i] == roles[i + 1]);
            }
        }
        assert forall|i: int, j: int| 0 <= i < r.len() && 0 <= j < r.len() && i != j implies r[i]
            != r[j] by {
            let oi = if i < w { i } else { i + 1 };
            let oj = if j < w { j } else { j + 1 };
            assert(r[i] == roles[oi]);
            assert(r[j] == roles[oj]);
        }
    }
}

} // verus!
