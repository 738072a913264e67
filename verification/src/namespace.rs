//! Namespace and clone planning: the pure reconciliation step between the
//! remote catalog and the local directory layout.
//!
//! The namespace plan is the set of unique relative paths to mirror — one per
//! group's full path, plus the personal namespace named after the user. The
//! clone plan is one destination per project, `root/namespace/name`, with no
//! deduplication: two projects that collide keep two entries.

use vstd::prelude::*;
use crate::model::{Group, Project, User};

verus! {

broadcast use vstd::seq::Seq::group_seq_extra;

/// Each group's full path, as a character sequence.
pub open spec fn group_paths(groups: Seq<Group>) -> Seq<Seq<char>> {
    groups.map_values(|g: Group| g.full_path@)
}

/// The namespace plan: every group path together with the personal
/// namespace. Set semantics: duplicates collapse, and a username equal to a
/// group path adds nothing.
pub open spec fn namespace_set(groups: Seq<Group>, username: Seq<char>) -> Set<Seq<char>> {
    group_paths(groups).to_set().insert(username)
}

/// The character sequences of a list of strings.
pub open spec fn string_views(v: Seq<String>) -> Seq<Seq<char>> {
    v.map_values(|s: String| s@)
}

/// Whether `v` holds a string whose characters equal those of `s`.
pub(crate) fn contains_string(v: &Vec<String>, s: &String) -> (r: bool)
    ensures
        r == string_views(v@).contains(s@),
{
    let mut i: usize = 0;
    while i < v.len()
        invariant
            i <= v@.len(),
            forall|k: int| 0 <= k < i ==> string_views(v@)[k] != s@,
        decreases v@.len() - i,
    {
        if v[i] == *s {
            assert(string_views(v@)[i as int] == s@);
            return true;
        }
        i += 1;
    }
    false
}

/// Derive the namespace plan for the catalog: the full path of every group,
/// plus the personal namespace, each exactly once.
///
/// The result is a list without duplicates whose entries, as a set, are
/// exactly `namespace_set(groups, username)`; its length is that set's
/// cardinality. The plan is a pure function of its arguments: no network or
/// filesystem access is involved, and the order of entries carries no
/// meaning.
pub fn plan_namespaces(groups: &Vec<Group>, user: &User) -> (r: Vec<String>)
    ensures
        string_views(r@).to_set() == namespace_set(groups@, user.username@),
        string_views(r@).no_duplicates(),
        r@.len() == namespace_set(groups@, user.username@).len(),
{
    let ghost gp = group_paths(groups@);
    let mut out: Vec<String> = Vec::new();
    let mut i: usize = 0;
    while i < groups.len()
        invariant
            i <= groups@.len(),
            gp == group_paths(groups@),
            string_views(out@).no_duplicates(),
            string_views(out@).to_set() == gp.take(i as int).to_set(),
        decreases groups@.len() - i,
    {
        let ghost prev = string_views(out@);
        if !contains_string(&out, &groups[i].full_path) {
            out.push(groups[i].full_path.clone());
            assert(string_views(out@) =~= prev.push(gp[i as int]));
        } else {
            assert(prev.to_set().insert(gp[i as int]) =~= prev.to_set());
        }
        proof {
            assert(gp.take(i + 1) =~= gp.take(i as int).push(gp[i as int]));
            assert(string_views(out@).to_set() =~= gp.take(i + 1).to_set());
        }
        i += 1;
    }
    proof {
        assert(gp.take(groups@.len() as int) =~= gp);
    }
    let ghost before_user = string_views(out@);
    if !contains_string(&out, &user.username) {
        out.push(user.username.clone());
        assert(string_views(out@) =~= before_user.push(user.username@));
    } else {
        assert(before_user.to_set().insert(user.username@) =~= before_user.to_set());
    }
    proof {
        assert(string_views(out@).to_set() =~= namespace_set(groups@, user.username@));
        string_views(out@).unique_seq_to_set();
    }
    out
}

/// Law: when the username differs from every group path, the namespace plan
/// has exactly one entry more than there are groups.
pub proof fn lemma_plan_counts_fresh_username(groups: Seq<Group>, username: Seq<char>)
    requires
        group_paths(groups).no_duplicates(),
        forall|i: int| 0 <= i < groups.len() ==> (#[trigger] groups[i]).full_path@ != username,
    ensures
        namespace_set(groups, username).len() == groups.len() + 1,
{
    broadcast use vstd::seq_lib::seq_to_set_is_finite;
    broadcast use vstd::set::axiom_set_insert_len;

    let gp = group_paths(groups);
    gp.unique_seq_to_set();
    assert(!gp.to_set().contains(username)) by {
        if gp.to_set().contains(username) {
            let i = choose|i: int| 0 <= i < gp.len() && gp[i] == username;
            assert(groups[i].full_path@ == username);
        }
    };
}

/// Law: when some group path equals the username, the personal namespace
/// collapses into it — set union is idempotent — and the plan has exactly as
/// many entries as there are groups.
pub proof fn lemma_plan_counts_matching_username(groups: Seq<Group>, username: Seq<char>)
    requires
        group_paths(groups).no_duplicates(),
        exists|i: int| 0 <= i < groups.len() && (#[trigger] groups[i]).full_path@ == username,
    ensures
        namespace_set(groups, username).len() == groups.len(),
{
    broadcast use vstd::seq_lib::seq_to_set_is_finite;

    let gp = group_paths(groups);
    gp.unique_seq_to_set();
    let i = choose|i: int| 0 <= i < groups.len() && (#[trigger] groups[i]).full_path@ == username;
    assert(gp[i] == username);
    assert(gp.to_set().contains(username));
    assert(gp.to_set().insert(username) =~= gp.to_set());
}

/// The destination path `root/namespace/name` of one project.
pub open spec fn dest_path(root: Seq<char>, namespace_path: Seq<char>, name: Seq<char>) -> Seq<char> {
    root + seq!['/'] + namespace_path + seq!['/'] + name
}

/// The destination of each project in turn, under `root`.
pub open spec fn clone_destinations(projects: Seq<Project>, root: Seq<char>) -> Seq<Seq<char>> {
    projects.map_values(|p: Project| dest_path(root, p.namespace.full_path@, p.name@))
}

/// One planned clone: where the working copy goes and where it is fetched
/// from.
#[derive(Debug, Clone, PartialEq, Eq)]
pub struct CloneTarget {
    pub destination: String,
    pub url: String,
}

/// Join two path segments with a single separator.
pub fn join_path(root: &String, rest: &String) -> (r: String)
    ensures
        r@ == root@ + seq!['/'] + rest@,
{
    proof {
        reveal_strlit("/");
    }
    let mut s = root.clone();
    s.append("/");
    s.append(rest.as_str());
    proof {
        assert(s@ =~= root@ + seq!['/'] + rest@);
    }
    s
}

/// Derive the clone plan: one target per project, in catalog order, with
/// destination `destination/full_path/name` and the project's HTTP remote
/// URL. No deduplication is applied — projects that collide on namespace and
/// name keep separate entries.
pub fn plan_clones(projects: &Vec<Project>, destination: &String) -> (r: Vec<CloneTarget>)
    ensures
        r@.len() == projects@.len(),
        forall|i: int| 0 <= i < r@.len() ==> (#[trigger] r@[i]).destination@
            == clone_destinations(projects@, destination@)[i],
        forall|i: int| 0 <= i < r@.len() ==> (#[trigger] r@[i]).url@
            == projects@[i].http_url_to_repo@,
{
    let mut out: Vec<CloneTarget> = Vec::new();
    let mut i: usize = 0;
    while i < projects.len()
        invariant
            i <= projects@.len(),
            out@.len() == i,
            forall|k: int| 0 <= k < i ==> (#[trigger] out@[k]).destination@
                == clone_destinations(projects@, destination@)[k],
            forall|k: int| 0 <= k < i ==> (#[trigger] out@[k]).url@
                == projects@[k].http_url_to_repo@,
        decreases projects@.len() - i,
    {
        let inner = join_path(&projects[i].namespace.full_path, &projects[i].name);
        let dest = join_path(destination, &inner);
        proof {
            assert(dest@ =~= dest_path(
                destination@,
                projects@[i as int].namespace.full_path@,
                projects@[i as int].name@,
            ));
        }
        out.push(CloneTarget { destination: dest, url: projects[i].http_url_to_repo.clone() });
        i += 1;
    }
    out
}

/// Law: the clone plan deduplicates nothing — two projects sharing namespace
/// path and name yield two entries with an identical destination, and the
/// plan stays as long as the project list.
pub proof fn lemma_clone_plan_keeps_collisions(projects: Seq<Project>, root: Seq<char>, i: int, j: int)
    requires
        0 <= i < projects.len(),
        0 <= j < projects.len(),
        projects[i].namespace.full_path@ == projects[j].namespace.full_path@,
        projects[i].name@ == projects[j].name@,
    ensures
        clone_destinations(projects, root).len() == projects.len(),
        clone_destinations(projects, root)[i] == clone_destinations(projects, root)[j],
{
}

} // verus!
