//! The names in use at a table.

use vstd::prelude::*;

verus! {

/// A set of names, kept in the order in which they were added.
pub struct NameSet {
    pub entries: Vec<String>,
}

impl View for NameSet {
    type V = Set<Seq<char>>;

    open spec fn view(&self) -> Set<Seq<char>> {
        name_seq(self.entries@).to_set()
    }
}

/// The texts of a list of strings.
pub open spec fn name_seq(entries: Seq<String>) -> Seq<Seq<char>> {
    entries.map_values(|name: String| name@)
}

impl NameSet {
    /// No name is stored twice.
    pub open spec fn wf(&self) -> bool {
        name_seq(self.entries@).no_duplicates()
    }

    /// An empty set.
    pub fn new() -> (set: NameSet)
        ensures
            set.wf(),
            set@ == Set::<Seq<char>>::empty(),
    {
        let set = NameSet { entries: Vec::new() };
        assert(set@ =~= Set::<Seq<char>>::empty());
        set
    }

    /// How many names there are.
    pub fn len(&self) -> (len: usize)
        requires
            self.wf(),
        ensures
            self@.finite(),
            len == self@.len(),
    {
        proof {
            name_seq(self.entries@).unique_seq_to_set();
        }
        self.entries.len()
    }

    /// The position of `name`, if it is in the set.
    fn position(&self, name: &String) -> (position: Option<usize>)
        ensures
            match position {
                Some(i) => i < self.entries@.len() && self.entries@[i as int]@ == name@,
                None => !self@.contains(name@),
            },
    {
        let ghost texts = name_seq(self.entries@);
        let mut i: usize = 0;
        while i < self.entries.len()
            invariant
                i <= self.entries@.len(),
                forall|j: int| 0 <= j < i ==> self.entries@[j]@ != name@,
            decreases self.entries@.len() - i,
        {
            if self.entries[i] == *name {
                return Some(i);
            }
            i += 1;
        }
        assert(!texts.contains(name@));
        None
    }

    /// Whether `name` is in the set.
    pub fn contains(&self, name: &String) -> (found: bool)
        ensures
            found == self@.contains(name@),
    {
        match self.position(name) {
            Some(i) => {
                assert(name_seq(self.entries@)[i as int] == name@);
                true
            },
            None => false,
        }
    }

    /// Adds `name`; a name that is already there stays as it is.
    pub fn insert(&mut self, name: String)
        requires
            old(self).wf(),
        ensures
            final(self).wf(),
            final(self)@ == old(self)@.insert(name@),
    {
        if self.contains(&name) {
            assert(self@ =~= self@.insert(name@));
            return;
        }
        let ghost before = name_seq(self.entries@);
        self.entries.push(name);
        proof {
            let after = name_seq(self.entries@);
            assert(after =~= before.push(name@));
            assert(forall|x: Seq<char>| after.contains(x) <==> before.contains(x) || x == name@) by {
                broadcast use vstd::seq_lib::group_seq_properties;

            }
            assert(after.to_set() =~= before.to_set().insert(name@));
            assert(after.no_duplicates()) by {
                assert forall|i: int, j: int|
                    0 <= i < after.len() && 0 <= j < after.len() && i != j implies after[i]
                    != after[j] by {
                    if i < before.len() {
                        assert(before.contains(before[i]));
                    }
                    if j < before.len() {
                        assert(before.contains(before[j]));
                    }
                }
            }
        }
    }

    /// Takes `name` out of the set, if it is there.
    pub fn remove(&mut self, name: &String)
        requires
            old(self).wf(),
        ensures
            final(self).wf(),
            final(self)@ == old(self)@.remove(name@),
    {
        let ghost before = name_seq(self.entries@);
        match self.position(name) {
            Some(i) => {
                self.entries.remove(i);
                proof {
                    let after = name_seq(self.entries@);
                    assert(before[i as int] == name@);
                    assert(after =~= before.remove(i as int));
                    assert forall|x: Seq<char>| after.contains(x) == (before.contains(x) && x
                        != name@) by {
                        if before.contains(x) && x != name@ {
                            let k = choose|k: int| 0 <= k < before.len() && before[k] == x;
                            if k < i {
                                assert(after[k] == x);
                            } else {
                                assert(after[k - 1] == x);
                            }
                        }
                        if after.contains(x) {
                            let k = choose|k: int| 0 <= k < after.len() && after[k] == x;
                            if k < i {
                                assert(before[k] == x);
                            } else {
                                assert(before[k + 1] == x);
                            }
                        }
                    }
                    assert(after.to_set() =~= before.to_set().remove(name@));
                }
            },
            None => {
                assert(self@ =~= self@.remove(name@));
            },
        }
    }
}

} // verus!
