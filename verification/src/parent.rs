//! The parent of the pigs: the one entity that every pig is attached to.

use vstd::prelude::*;

verus! {

/// The parent of the pigs as a mathematical value.
pub struct PigParentView {
    pub id: u64,
    pub children: Set<u64>,
}

/// The entity that owns every pig: it carries nothing but its identifier and
/// the set of its children.
#[derive(Debug, PartialEq, Eq)]
pub struct PigParent {
    id: u64,
    children: Vec<u64>,
}

impl View for PigParent {
    type V = PigParentView;

    closed spec fn view(&self) -> PigParentView {
        PigParentView { id: self.id, children: self.children@.to_set() }
    }
}

impl PigParent {
    /// No child is listed twice.
    pub closed spec fn wf(&self) -> bool {
        self.children@.no_duplicates()
    }

    /// A parent without children.
    pub fn new(id: u64) -> (p: PigParent)
        ensures
            p.wf(),
            p@ == (PigParentView { id, children: Set::empty() }),
    {
        let p = PigParent { id, children: Vec::new() };
        assert(p.children@.to_set() =~= Set::<u64>::empty());
        p
    }

    /// The identifier of the parent.
    pub fn id(&self) -> (id: u64)
        ensures
            id == self@.id,
    {
        self.id
    }

    /// The number of children.
    pub fn child_count(&self) -> (n: usize)
        requires
            self.wf(),
        ensures
            self@.children.finite(),
            n == self@.children.len(),
    {
        proof {
            self.children@.unique_seq_to_set();
        }
        self.children.len()
    }

    /// Where `child` stands in the list, if it is a child.
    fn find(&self, child: u64) -> (at: Option<usize>)
        ensures
            match at {
                Some(k) => k < self.children@.len() && self.children@[k as int] == child,
                None => !self.children@.contains(child),
            },
    {
        let mut k: usize = 0;
        while k < self.children.len()
            invariant
                k <= self.children@.len(),
                forall|j: int| 0 <= j < k ==> self.children@[j] != child,
            decreases self.children@.len() - k,
        {
            if self.children[k] == child {
                return Some(k);
            }
            k = k + 1;
        }
        None
    }

    /// Whether `child` is attached.
    pub fn has_child(&self, child: u64) -> (yes: bool)
        ensures
            yes == self@.children.contains(child),
    {
        self.find(child).is_some()
    }

    /// Attaches `child`, and says whether it was not attached before.
    pub fn attach(&mut self, child: u64) -> (added: bool)
        requires
            old(self).wf(),
        ensures
            final(self).wf(),
            final(self)@.id == old(self)@.id,
            final(self)@.children == old(self)@.children.insert(child),
            added == !old(self)@.children.contains(child),
    {
        match self.find(child) {
            Some(_) => {
                assert(self.children@.to_set().insert(child) =~= self.children@.to_set());
                false
            },
            None => {
                self.children.push(child);
                assert(self.children@.to_set() =~= old(self).children@.to_set().insert(child)) by {
                    assert forall|x: u64|
                        self.children@.contains(x) <==> old(self).children@.contains(x) || x
                            == child by {
                        if old(self).children@.contains(x) {
                            let j = choose|j: int|
                                0 <= j < old(self).children@.len() && old(self).children@[j] == x;
                            assert(self.children@[j] == x);
                        }
                        if x == child {
                            assert(self.children@[self.children@.len() - 1] == x);
                        }
                    }
                }
                true
            },
        }
    }

    /// Detaches `child`, and says whether it was attached.
    pub fn detach(&mut self, child: u64) -> (removed: bool)
        requires
            old(self).wf(),
        ensures
            final(self).wf(),
            final(self)@.id == old(self)@.id,
            final(self)@.children == old(self)@.children.remove(child),
            removed == old(self)@.children.contains(child),
    {
        match self.find(child) {
            Some(k) => {
                proof {
                    lemma_remove_from_unique(self.children@, k as int);
                }
                self.children.remove(k);
                true
            },
            None => {
                assert(self.children@.to_set().remove(child) =~= self.children@.to_set());
                false
            },
        }
    }
}

/// Taking one entry out of a list without repeats takes exactly that value
/// out of the set of its entries, and leaves a list without repeats.
pub proof fn lemma_remove_from_unique(s: Seq<u64>, k: int)
    requires
        s.no_duplicates(),
        0 <= k < s.len(),
    ensures
        s.remove(k).no_duplicates(),
        s.remove(k).to_set() == s.to_set().remove(s[k]),
{
    let r = s.remove(k);
    assert forall|x: u64| r.contains(x) <==> (s.contains(x) && x != s[k]) by {
        if r.contains(x) {
            let j = choose|j: int| 0 <= j < r.len() && r[j] == x;
            if j < k {
                assert(s[j] == x);
            } else {
                assert(s[j + 1] == x);
            }
        }
        if s.contains(x) && x != s[k] {
            let j = choose|j: int| 0 <= j < s.len() && s[j] == x;
            if j < k {
                assert(r[j] == x);
            } else {
                assert(r[j - 1] == x);
            }
        }
    }
    assert(r.to_set() =~= s.to_set().remove(s[k]));
}

} // verus!
