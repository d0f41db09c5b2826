//! The roles of a guild as the commands see them, and the lookups over them.
use vstd::prelude::*;

use crate::seqs::{is_last_where, lemma_last_where_unique};

verus! {

/// A role of a guild: its id and its name.
pub struct GuildRole {
    pub id: u64,
    pub name: String,
}

impl View for GuildRole {
    type V = (u64, Seq<char>);

    open spec fn view(&self) -> (u64, Seq<char>) {
        (self.id, self.name@)
    }
}

pub open spec fn roles_view(v: Seq<GuildRole>) -> Seq<(u64, Seq<char>)> {
    v.map_values(|r: GuildRole| r@)
}

/// Some role is named `name`.
pub open spec fn has_role_named(roles: Seq<(u64, Seq<char>)>, name: Seq<char>) -> bool {
    exists|i: int| 0 <= i < roles.len() && roles[i].1 == name
}

/// `i` is the position of the last role named `name`.
pub open spec fn is_last_named(roles: Seq<(u64, Seq<char>)>, name: Seq<char>, i: int) -> bool {
    is_last_where(roles, |r: (u64, Seq<char>)| r.1 == name, i)
}

/// The role that a name designates: the last role of that name, in the order given.
pub open spec fn role_named(roles: Seq<(u64, Seq<char>)>, name: Seq<char>) -> Option<u64> {
    if has_role_named(roles, name) {
        Some(roles[choose|i: int| is_last_named(roles, name, i)].0)
    } else {
        None
    }
}

/// The lines that list the roles whose ids are in `ids`, one name per line, in the
/// order given, leaving out `@everyone`.
pub open spec fn role_listing(roles: Seq<(u64, Seq<char>)>, ids: Seq<u64>) -> Seq<char>
    decreases roles.len(),
{
    if roles.len() == 0 {
        Seq::empty()
    } else {
        let prev = role_listing(roles.drop_last(), ids);
        let r = roles.last();
        if ids.contains(r.0) && r.1 != "@everyone"@ {
            prev + r.1 + "\n"@
        } else {
            prev
        }
    }
}

/// A single role is listed, as its name and a line break, exactly when its id is in
/// the list and it is not `@everyone`; otherwise nothing is listed for it.
pub proof fn lemma_role_listing_single(r: (u64, Seq<char>), ids: Seq<u64>)
    ensures
        role_listing(seq![r], ids) == if ids.contains(r.0) && r.1 != "@everyone"@ {
            r.1 + "\n"@
        } else {
            Seq::<char>::empty()
        },
{
    let one = seq![r];
    let none = Seq::<(u64, Seq<char>)>::empty();
    assert(one.drop_last() =~= none);
    assert(one.last() == r);
    assert(role_listing(none, ids) == Seq::<char>::empty());
    assert(Seq::<char>::empty() + r.1 + "\n"@ =~= r.1 + "\n"@);
}

/// The listing of two runs of roles is the listing of the first run followed by that
/// of the second: roles are listed one by one, in the order given.
pub proof fn lemma_role_listing_append(
    a: Seq<(u64, Seq<char>)>,
    b: Seq<(u64, Seq<char>)>,
    ids: Seq<u64>,
)
    ensures
        role_listing(a + b, ids) == role_listing(a, ids) + role_listing(b, ids),
    decreases b.len(),
{
    if b.len() == 0 {
        assert(a + b =~= a);
        assert(role_listing(a, ids) + Seq::<char>::empty() =~= role_listing(a, ids));
    } else {
        let ab = a + b;
        assert(ab.drop_last() =~= a + b.drop_last());
        assert(ab.last() == b.last());
        lemma_role_listing_append(a, b.drop_last(), ids);
        let la = role_listing(a, ids);
        let lb = role_listing(b.drop_last(), ids);
        let r = b.last();
        if ids.contains(r.0) && r.1 != "@everyone"@ {
            assert(la + lb + r.1 + "\n"@ =~= la + (lb + r.1 + "\n"@));
        }
    }
}

/// Which roles are listed depends only on which ids the list holds, not on their order
/// or on repetitions.
pub proof fn lemma_role_listing_depends_on_id_set(
    roles: Seq<(u64, Seq<char>)>,
    ids1: Seq<u64>,
    ids2: Seq<u64>,
)
    requires
        forall|x: u64| ids1.contains(x) <==> ids2.contains(x),
    ensures
        role_listing(roles, ids1) == role_listing(roles, ids2),
    decreases roles.len(),
{
    if roles.len() > 0 {
        lemma_role_listing_depends_on_id_set(roles.drop_last(), ids1, ids2);
        assert(ids1.contains(roles.last().0) == ids2.contains(roles.last().0));
    }
}

/// Finds the role named `name`: the last one of that name, as a scan over all the
/// guild's roles that keeps the latest match finds it.
pub fn find_role_by_name(roles: &Vec<GuildRole>, name: &String) -> (r: Option<u64>)
    ensures
        r == role_named(roles_view(roles@), name@),
{
    let ghost rv = roles_view(roles@);
    let mut found: Option<u64> = None;
    let ghost mut at: int = -1;
    let mut i: usize = 0;
    while i < roles.len()
        invariant
            i <= roles.len(),
            rv == roles_view(roles@),
            found is None ==> forall|j: int| 0 <= j < i ==> rv[j].1 != name@,
            found is Some ==> 0 <= at < i && rv[at].1 == name@ && found == Some(rv[at].0)
                && forall|j: int| at < j < i ==> rv[j].1 != name@,
        decreases roles.len() - i,
    {
        if roles[i].name == *name {
            found = Some(roles[i].id);
            proof {
                at = i as int;
            }
        }
        i = i + 1;
    }
    proof {
        if found is Some {
            assert(is_last_named(rv, name@, at));
            let k = choose|k: int| is_last_named(rv, name@, k);
            lemma_last_where_unique(rv, |r: (u64, Seq<char>)| r.1 == name@, at, k);
        }
    }
    found
}

/// Whether `role` is in `ids`.
fn contains_id(ids: &Vec<u64>, role: u64) -> (r: bool)
    ensures
        r == ids@.contains(role),
{
    let mut i: usize = 0;
    while i < ids.len()
        invariant
            i <= ids.len(),
            forall|j: int| 0 <= j < i ==> ids@[j] != role,
        decreases ids.len() - i,
    {
        if ids[i] == role {
            return true;
        }
        i = i + 1;
    }
    false
}

/// Lists the names of the roles whose ids are in `ids`, one per line, leaving out
/// `@everyone`.
pub fn list_roles(roles: &Vec<GuildRole>, ids: &Vec<u64>) -> (s: String)
    ensures
        s@ == role_listing(roles_view(roles@), ids@),
{
    let ghost rv = roles_view(roles@);
    let everyone = String::from_str("@everyone");
    let mut s = String::new();
    let mut i: usize = 0;
    proof {
        reveal_strlit("\n");
        assert(rv.take(0) =~= Seq::<(u64, Seq<char>)>::empty());
    }
    while i < roles.len()
        invariant
            i <= roles.len(),
            rv == roles_view(roles@),
            everyone@ == "@everyone"@,
            s@ == role_listing(rv.take(i as int), ids@),
        decreases roles.len() - i,
    {
        proof {
            assert(rv.take(i + 1).drop_last() =~= rv.take(i as int));
            assert(rv.take(i + 1).last() == rv[i as int]);
        }
        if contains_id(ids, roles[i].id) && !(roles[i].name == everyone) {
            s.append(roles[i].name.as_str());
            s.append("\n");
        }
        i = i + 1;
    }
    assert(rv.take(roles.len() as int) =~= rv);
    s
}

} // verus!
