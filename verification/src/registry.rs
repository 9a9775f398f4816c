//! The engine's table of registered filters.
//!
//! The engine keeps one process-wide table of filters keyed by name. This
//! model states the table's contract: at most one filter per name,
//! re-registration under a name replaces the earlier entry, and
//! unregistration removes exactly the named entry and touches no other.

use vstd::prelude::*;

verus! {

/// The named-filter table: each entry carries the name a filter was
/// registered under and its scheduling priority.
pub struct FilterRegistry {
    entries: Vec<(String, i32)>,
}

impl FilterRegistry {
    /// At most one entry per name.
    pub closed spec fn wf(&self) -> bool {
        forall|i: int, j: int|
            0 <= i < self.entries@.len() && 0 <= j < self.entries@.len() && i != j
                ==> self.entries@[i].0@ != self.entries@[j].0@
    }

    /// Whether a filter is registered under this name.
    pub closed spec fn spec_contains(&self, name: Seq<char>) -> bool {
        exists|i: int| 0 <= i < self.entries@.len() && self.entries@[i].0@ == name
    }

    /// The priority registered under this name.
    pub closed spec fn spec_priority_of(&self, name: Seq<char>) -> i32 {
        self.entries@[choose|i: int|
            0 <= i < self.entries@.len() && self.entries@[i].0@ == name].1
    }

    /// How many filters are registered.
    pub closed spec fn spec_len(&self) -> int {
        self.entries@.len() as int
    }

    /// An empty table.
    pub fn new() -> (r: Self)
        ensures
            r.wf(),
            r.spec_len() == 0,
            forall|n: Seq<char>| !r.spec_contains(n),
    {
        FilterRegistry { entries: Vec::new() }
    }

    /// The number of registered filters.
    pub fn len(&self) -> (r: usize)
        ensures
            r == self.spec_len(),
    {
        self.entries.len()
    }

    /// Whether a filter is registered under `name`.
    pub fn contains(&self, name: &String) -> (r: bool)
        ensures
            r == self.spec_contains(name@),
    {
        let mut i: usize = 0;
        while i < self.entries.len()
            invariant
                i <= self.entries@.len(),
                forall|j: int| 0 <= j < i ==> self.entries@[j].0@ != name@,
            decreases self.entries@.len() - i,
        {
            if self.entries[i].0 == *name {
                return true;
            }
            i = i + 1;
        }
        false
    }

    /// The index of `name`'s entry, if there is one.
    fn find(&self, name: &String) -> (r: Option<usize>)
        ensures
            (match r {
                Some(i) => i < self.entries@.len() && self.entries@[i as int].0@ == name@,
                None => !self.spec_contains(name@),
            }),
    {
        let mut i: usize = 0;
        while i < self.entries.len()
            invariant
                i <= self.entries@.len(),
                forall|j: int| 0 <= j < i ==> self.entries@[j].0@ != name@,
            decreases self.entries@.len() - i,
        {
            if self.entries[i].0 == *name {
                return Some(i);
            }
            i = i + 1;
        }
        None
    }

    /// Register a filter under `name`. If a filter already stands under
    /// that name it is replaced; every other entry is untouched.
    pub fn register(&mut self, name: String, priority: i32)
        requires
            old(self).wf(),
        ensures
            final(self).wf(),
            final(self).spec_contains(name@),
            final(self).spec_priority_of(name@) == priority,
            forall|n: Seq<char>|
                n != name@ ==> (final(self).spec_contains(n) <==> old(self).spec_contains(n)),
            forall|n: Seq<char>|
                n != name@ && old(self).spec_contains(n) ==> final(self).spec_priority_of(n) == old(
                    self,
                ).spec_priority_of(n),
    {
        self.unregister(&name);
        let ghost pre = *self;
        self.entries.push((name, priority));
        proof {
            let last = pre.entries@.len() as int;
            assert(self.entries@ =~= pre.entries@.push((name, priority)));
            assert(forall|j: int| 0 <= j < last ==> self.entries@[j] == pre.entries@[j]);
            assert(self.entries@[last].0@ == name@);
            assert forall|n: Seq<char>|
                n != name@ && self.spec_contains(n) implies pre.spec_contains(n) by {
                let i = choose|i: int|
                    0 <= i < self.entries@.len() && self.entries@[i].0@ == n;
                assert(i < last);
                assert(pre.entries@[i].0@ == n);
            }
            assert forall|n: Seq<char>|
                n != name@ && pre.spec_contains(n) implies self.spec_contains(n)
                && self.spec_priority_of(n) == pre.spec_priority_of(n) by {
                let i = choose|i: int|
                    0 <= i < pre.entries@.len() && pre.entries@[i].0@ == n;
                assert(self.entries@[i].0@ == n);
                lemma_priority_at(*self, n, i);
                lemma_priority_at(pre, n, i);
            }
            lemma_priority_at(*self, name@, last);
        }
    }

    /// Remove exactly the entry registered under `name`, if any; no other
    /// registered filter is affected.
    pub fn unregister(&mut self, name: &String)
        requires
            old(self).wf(),
        ensures
            final(self).wf(),
            !final(self).spec_contains(name@),
            forall|n: Seq<char>|
                n != name@ ==> (final(self).spec_contains(n) <==> old(self).spec_contains(n)),
            forall|n: Seq<char>|
                n != name@ && old(self).spec_contains(n) ==> final(self).spec_priority_of(n) == old(
                    self,
                ).spec_priority_of(n),
    {
        let found = self.find(name);
        match found {
            None => {},
            Some(i) => {
                let ghost pre = *self;
                let _ = self.entries.remove(i);
                proof {
                    assert(self.entries@ =~= pre.entries@.remove(i as int));
                    assert(forall|j: int|
                        0 <= j < i ==> self.entries@[j] == pre.entries@[j]);
                    assert(forall|j: int|
                        i <= j < self.entries@.len() ==> self.entries@[j] == pre.entries@[j + 1]);
                    assert forall|n: Seq<char>| self.spec_contains(n) implies n != name@
                        && pre.spec_contains(n) by {
                        let k = choose|k: int|
                            0 <= k < self.entries@.len() && self.entries@[k].0@ == n;
                        if k < i {
                            assert(pre.entries@[k].0@ == n);
                        } else {
                            assert(pre.entries@[k + 1].0@ == n);
                        }
                    }
                    assert forall|n: Seq<char>|
                        n != name@ && pre.spec_contains(n) implies self.spec_contains(n)
                        && self.spec_priority_of(n) == pre.spec_priority_of(n) by {
                        let k = choose|k: int|
                            0 <= k < pre.entries@.len() && pre.entries@[k].0@ == n;
                        assert(k != i);
                        if k < i {
                            assert(self.entries@[k].0@ == n);
                            lemma_priority_at(*self, n, k);
                        } else {
                            assert(self.entries@[k - 1].0@ == n);
                            lemma_priority_at(*self, n, k - 1);
                        }
                        lemma_priority_at(pre, n, k);
                    }
                }
            },
        }
    }

    /// The priority registered under `name`, if any filter stands there.
    pub fn priority_of(&self, name: &String) -> (r: Option<i32>)
        requires
            self.wf(),
        ensures
            (match r {
                Some(p) => self.spec_contains(name@) && p == self.spec_priority_of(name@),
                None => !self.spec_contains(name@),
            }),
    {
        let found = self.find(name);
        match found {
            Some(i) => {
                proof {
                    lemma_priority_at(*self, name@, i as int);
                }
                Some(self.entries[i].1)
            },
            None => None,
        }
    }
}

/// In a well-formed table, any index whose entry carries `name` is the one
/// `spec_priority_of` reads.
proof fn lemma_priority_at(reg: FilterRegistry, name: Seq<char>, i: int)
    requires
        reg.wf(),
        0 <= i < reg.entries@.len(),
        reg.entries@[i].0@ == name,
    ensures
        reg.spec_contains(name),
        reg.spec_priority_of(name) == reg.entries@[i].1,
{
    let k = choose|k: int| 0 <= k < reg.entries@.len() && reg.entries@[k].0@ == name;
    assert(k == i);
}

} // verus!
