//! Directory materialization, modelled: the set of directory paths known to
//! exist under the destination root.
//!
//! The binary mirrors each operation here with a recursive directory
//! creation on the real filesystem; in the model, creating a directory that
//! already exists changes nothing and never fails, which is exactly the
//! idempotence the mirror relies on when it is run twice.

use vstd::prelude::*;
use crate::namespace::{contains_string, string_views};

verus! {

broadcast use vstd::seq::Seq::group_seq_extra;

/// The set of directory paths created so far.
pub struct DirTree {
    created: Vec<String>,
}

impl View for DirTree {
    type V = Set<Seq<char>>;

    closed spec fn view(&self) -> Set<Seq<char>> {
        string_views(self.created@).to_set()
    }
}

impl DirTree {
    /// An empty tree: nothing created yet.
    pub fn new() -> (r: Self)
        ensures
            r@ == Set::<Seq<char>>::empty(),
    {
        let r = DirTree { created: Vec::new() };
        proof {
            assert(r@ =~= Set::<Seq<char>>::empty());
        }
        r
    }

    /// Whether `path` has been created.
    pub fn contains(&self, path: &String) -> (r: bool)
        ensures
            r == self@.contains(path@),
    {
        contains_string(&self.created, path)
    }

    /// Create one directory. Creating an existing one changes nothing.
    pub fn ensure_dir(&mut self, path: &String)
        ensures
            final(self)@ == old(self)@.insert(path@),
    {
        let ghost prev = string_views(self.created@);
        if !contains_string(&self.created, path) {
            self.created.push(path.clone());
            proof {
                assert(string_views(self.created@) =~= prev.push(path@));
            }
        } else {
            proof {
                assert(prev.to_set().insert(path@) =~= prev.to_set());
            }
        }
    }

    /// Create every directory of the plan, in order. The result does not
    /// depend on what already existed beyond taking the union, so a second
    /// run with the same plan leaves the tree as it was.
    pub fn materialize(&mut self, plan: &Vec<String>)
        ensures
            final(self)@ == old(self)@ + string_views(plan@).to_set(),
    {
        let ghost pv = string_views(plan@);
        let mut i: usize = 0;
        while i < plan.len()
            invariant
                i <= plan@.len(),
                pv == string_views(plan@),
                self@ == old(self)@ + pv.take(i as int).to_set(),
            decreases plan@.len() - i,
        {
            self.ensure_dir(&plan[i]);
            proof {
                assert(pv.take(i + 1) =~= pv.take(i as int).push(pv[i as int]));
                assert((old(self)@ + pv.take(i as int).to_set()).insert(pv[i as int])
                    =~= old(self)@ + pv.take(i + 1).to_set());
            }
            i += 1;
        }
        proof {
            assert(pv.take(plan@.len() as int) =~= pv);
        }
    }
}

/// Law: materialization is idempotent — the directories present after
/// materializing a plan twice are exactly those present after materializing
/// it once (and in the model no repetition can fail).
pub proof fn lemma_materialize_idempotent(existing: Set<Seq<char>>, plan: Set<Seq<char>>)
    ensures
        (existing + plan) + plan == existing + plan,
{
    assert((existing + plan) + plan =~= existing + plan);
}

} // verus!
