//! Identities of running continuation tasks.

use vstd::prelude::*;

verus! {

/// A set of task identities.
#[derive(Debug)]
pub struct TaskSet {
    /// The identities, each once.
    pub ids: Vec<u64>,
}

impl View for TaskSet {
    type V = Set<u64>;

    open spec fn view(&self) -> Set<u64> {
        self.ids@.to_set()
    }
}

impl TaskSet {
    /// Whether no identity occurs twice.
    pub open spec fn wf(self) -> bool {
        self.ids@.no_duplicates()
    }

    /// No tasks.
    pub fn new() -> (r: Self)
        ensures
            r.wf(),
            r@ == Set::<u64>::empty(),
    {
        let r = TaskSet { ids: Vec::new() };
        assert(r@ =~= Set::empty());
        r
    }

    /// Where an identity stands.
    fn position(&self, id: u64) -> (r: Option<usize>)
        ensures
            match r {
                Some(i) => i < self.ids@.len() && self.ids@[i as int] == id,
                None => !self@.contains(id),
            },
    {
        let mut i: usize = 0;
        while i < self.ids.len()
            invariant
                i <= self.ids@.len(),
                forall|j: int| 0 <= j < i ==> self.ids@[j] != id,
            decreases self.ids.len() - i,
        {
            if self.ids[i] == id {
                return Some(i);
            }
            i += 1;
        }
        None
    }

    /// Adds a task.
    pub fn insert(&mut self, id: u64)
        requires
            old(self).wf(),
        ensures
            final(self).wf(),
            final(self)@ == old(self)@.insert(id),
    {
        if self.position(id).is_none() {
            let ghost before = self.ids@;
            self.ids.push(id);
            proof {
                assert forall|x: u64| self.ids@.contains(x) <==> before.contains(x) || x == id by {
                    assert(self.ids@[before.len() as int] == id);
                    if before.contains(x) {
                        let k = choose|k: int| 0 <= k < before.len() && before[k] == x;
                        assert(self.ids@[k] == x);
                    }
                }
                assert(!before.contains(id)) by {
                    if before.contains(id) {
                        assert(before.to_set().contains(id));
                    }
                }
                assert(self@ =~= old(self)@.insert(id));
            }
        } else {
            proof {
                assert(self.ids@.contains(id));
                assert(self@ =~= old(self)@.insert(id));
            }
        }
    }

    /// Removes a task.
    pub fn remove(&mut self, id: u64)
        requires
            old(self).wf(),
        ensures
            final(self).wf(),
            final(self)@ == old(self)@.remove(id),
    {
        match self.position(id) {
            Some(i) => {
                let ghost before = self.ids@;
                let _ = self.ids.remove(i);
                proof {
                    assert forall|x: u64| self.ids@.contains(x) <==> before.contains(x) && x
                        != id by {
                        if before.contains(x) && x != id {
                            let k = choose|k: int| 0 <= k < before.len() && before[k] == x;
                            let m = if k < i {
                                k
                            } else {
                                k - 1
                            };
                            assert(self.ids@[m] == x);
                        }
                        if self.ids@.contains(x) {
                            let m = choose|m: int| 0 <= m < self.ids@.len() && self.ids@[m] == x;
                            let k = if m < i {
                                m
                            } else {
                                m + 1
                            };
                            assert(before[k] == x);
                        }
                    }
                    assert(self@ =~= old(self)@.remove(id));
                }
            },
            None => {
                assert(self@ =~= old(self)@.remove(id));
            },
        }
    }

    /// Takes all tasks out.
    pub fn drain(&mut self) -> (r: Vec<u64>)
        requires
            old(self).wf(),
        ensures
            final(self).wf(),
            final(self)@ == Set::<u64>::empty(),
            r@.no_duplicates(),
            r@.to_set() == old(self)@,
    {
        let mut taken: Vec<u64> = Vec::new();
        taken.append(&mut self.ids);
        assert(taken@ =~= old(self).ids@);
        assert(self@ =~= Set::empty());
        taken
    }
}

} // verus!
