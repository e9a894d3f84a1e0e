//! Collections: element-wise updates of a vector, and a table of scores
//! keyed by name.
use vstd::prelude::*;
use vstd::string::*;

verus! {

/// Doubles every element in place.
pub fn double_all(v: &mut Vec<i32>)
    requires
        forall|i: int| 0 <= i < old(v)@.len() ==> i32::MIN <= 2 * #[trigger] old(v)@[i] <= i32::MAX,
    ensures
        final(v)@.len() == old(v)@.len(),
        forall|i: int| 0 <= i < old(v)@.len() ==> final(v)@[i] == 2 * old(v)@[i],
{
    let ghost start = v@;
    let mut k: usize = 0;
    while k < v.len()
        invariant
            v@.len() == start.len(),
            k <= v@.len(),
            forall|i: int| 0 <= i < k ==> v@[i] == 2 * start[i],
            forall|i: int| k <= i < v@.len() ==> v@[i] == start[i],
            forall|i: int| 0 <= i < start.len() ==> i32::MIN <= 2 * #[trigger] start[i] <= i32::MAX,
        decreases v@.len() - k,
    {
        let x = v[k];
        assert(x == start[k as int]);
        v.set(k, x * 2);
        k = k + 1;
    }
}

/// Scores by name, each name at most once.
pub struct Scores {
    entries: Vec<(String, u32)>,
}

impl Scores {
    spec fn key_at(&self, i: int) -> Seq<char> {
        self.entries@[i].0@
    }

    /// Whether `name` has a score.
    pub closed spec fn has(&self, name: Seq<char>) -> bool {
        exists|i: int| 0 <= i < self.entries@.len() && self.key_at(i) == name
    }

    /// No name appears twice.
    pub closed spec fn wf(&self) -> bool {
        forall|i: int, j: int|
            0 <= i < j < self.entries@.len() ==> self.key_at(i) != self.key_at(j)
    }

    /// The scores as a map from name to score.
    pub closed spec fn view(&self) -> Map<Seq<char>, u32> {
        Map::new(
            |name: Seq<char>| self.has(name),
            |name: Seq<char>|
                self.entries@[choose|i: int|
                    0 <= i < self.entries@.len() && self.key_at(i) == name].1,
        )
    }

    proof fn lemma_entry(&self, i: int)
        requires
            self.wf(),
            0 <= i < self.entries@.len(),
        ensures
            self.view().contains_key(self.key_at(i)),
            self.view()[self.key_at(i)] == self.entries@[i].1,
    {
        let name = self.key_at(i);
        assert(self.has(name));
        let j = choose|j: int| 0 <= j < self.entries@.len() && self.key_at(j) == name;
        assert(j == i);
    }

    pub fn new() -> (r: Self)
        ensures
            r.wf(),
            r.view() == Map::<Seq<char>, u32>::empty(),
    {
        let r = Scores { entries: Vec::new() };
        assert(r.view() =~= Map::<Seq<char>, u32>::empty());
        r
    }

    fn find(&self, name: &String) -> (r: Option<usize>)
        ensures
            r matches Some(i) ==> i < self.entries@.len() && self.key_at(i as int) == name@,
            r is None ==> !self.has(name@),
    {
        let mut i: usize = 0;
        while i < self.entries.len()
            invariant
                i <= self.entries@.len(),
                forall|j: int| 0 <= j < i ==> self.key_at(j) != name@,
            decreases self.entries@.len() - i,
        {
            if self.entries[i].0 == *name {
                return Some(i);
            }
            i = i + 1;
        }
        None
    }

    /// The score of `name`, if it has one.
    pub fn get(&self, name: &str) -> (r: Option<u32>)
        requires
            self.wf(),
        ensures
            r == (if self.view().contains_key(name@) {
                Some(self.view()[name@])
            } else {
                None::<u32>
            }),
    {
        let key = String::from_str(name);
        match self.find(&key) {
            Some(i) => {
                proof {
                    self.lemma_entry(i as int);
                }
                Some(self.entries[i].1)
            },
            None => None,
        }
    }

    /// Sets the score of `name`, replacing any earlier one.
    pub fn insert(&mut self, name: &str, score: u32)
        requires
            old(self).wf(),
        ensures
            final(self).wf(),
            final(self).view() == old(self).view().insert(name@, score),
    {
        let key = String::from_str(name);
        let ghost pre = *self;
        match self.find(&key) {
            Some(i) => {
                self.entries.set(i, (key, score));
                proof {
                    assert forall|j: int| 0 <= j < self.entries@.len() implies #[trigger] self.key_at(
                        j,
                    ) == pre.key_at(j) by {}
                    assert(self.wf());
                    self.lemma_entry(i as int);
                    assert forall|k: Seq<char>|
                        k != name@ implies #[trigger] self.has(k) == pre.has(k) && (pre.has(k)
                            ==> self.view()[k] == pre.view()[k]) by {
                        if pre.has(k) {
                            let j = choose|j: int|
                                0 <= j < pre.entries@.len() && pre.key_at(j) == k;
                            pre.lemma_entry(j);
                            self.lemma_entry(j);
                        }
                        if self.has(k) {
                            let j = choose|j: int|
                                0 <= j < self.entries@.len() && self.key_at(j) == k;
                            assert(pre.key_at(j) == k);
                        }
                    }
                    assert(self.view() =~= pre.view().insert(name@, score));
                }
            },
            None => {
                self.entries.push((key, score));
                proof {
                    let n = pre.entries@.len() as int;
                    assert forall|j: int| 0 <= j < n implies #[trigger] self.key_at(j) == pre.key_at(
                        j,
                    ) && self.key_at(j) != name@ by {}
                    assert(self.wf());
                    self.lemma_entry(n);
                    assert forall|k: Seq<char>|
                        k != name@ implies #[trigger] self.has(k) == pre.has(k) && (pre.has(k)
                            ==> self.view()[k] == pre.view()[k]) by {
                        if pre.has(k) {
                            let j = choose|j: int|
                                0 <= j < pre.entries@.len() && pre.key_at(j) == k;
                            pre.lemma_entry(j);
                            self.lemma_entry(j);
                        }
                        if self.has(k) {
                            let j = choose|j: int|
                                0 <= j < self.entries@.len() && self.key_at(j) == k;
                            assert(j < n);
                            assert(pre.key_at(j) == k);
                        }
                    }
                    assert(self.view() =~= pre.view().insert(name@, score));
                }
            },
        }
    }

    /// The names that have a score, each once.
    pub fn names(&self) -> (r: Vec<String>)
        requires
            self.wf(),
        ensures
            forall|i: int| 0 <= i < r@.len() ==> self.view().contains_key(#[trigger] r@[i]@),
            forall|name: Seq<char>|
                #[trigger] self.view().contains_key(name) ==> exists|i: int|
                    0 <= i < r@.len() && r@[i]@ == name,
            forall|i: int, j: int| 0 <= i < j < r@.len() ==> r@[i]@ != r@[j]@,
    {
        let mut out: Vec<String> = Vec::new();
        let mut k: usize = 0;
        while k < self.entries.len()
            invariant
                k <= self.entries@.len(),
                out@.len() == k,
                forall|i: int| 0 <= i < k ==> #[trigger] out@[i]@ == self.key_at(i),
            decreases self.entries@.len() - k,
        {
            out.push(self.entries[k].0.clone());
            k = k + 1;
        }
        proof {
            assert forall|i: int| 0 <= i < out@.len() implies self.view().contains_key(
                #[trigger] out@[i]@,
            ) by {
                self.lemma_entry(i);
            }
            assert forall|name: Seq<char>| #[trigger]
                self.view().contains_key(name) implies exists|i: int|
                0 <= i < out@.len() && out@[i]@ == name by {
                let i = choose|i: int| 0 <= i < self.entries@.len() && self.key_at(i) == name;
                assert(out@[i]@ == name);
            }
        }
        out
    }

    /// The score of `name`, first setting it to `default` when it has none.
    pub fn entry_or_insert(&mut self, name: &str, default: u32) -> (r: u32)
        requires
            old(self).wf(),
        ensures
            final(self).wf(),
            final(self).view() == (if old(self).view().contains_key(name@) {
                old(self).view()
            } else {
                old(self).view().insert(name@, default)
            }),
            r == final(self).view()[name@],
    {
        match self.get(name) {
            Some(v) => v,
            None => {
                self.insert(name, default);
                default
            },
        }
    }

    /// Takes `name` out of the table, handing back its score if it had one.
    pub fn remove(&mut self, name: &str) -> (r: Option<u32>)
        requires
            old(self).wf(),
        ensures
            final(self).wf(),
            final(self).view() == old(self).view().remove(name@),
            r == (if old(self).view().contains_key(name@) {
                Some(old(self).view()[name@])
            } else {
                None::<u32>
            }),
    {
        let key = String::from_str(name);
        let ghost pre = *self;
        match self.find(&key) {
            Some(i) => {
                proof {
                    pre.lemma_entry(i as int);
                }
                let (_, score) = self.entries.remove(i);
                proof {
                    let n = self.entries@.len() as int;
                    assert forall|j: int| 0 <= j < n implies #[trigger] self.key_at(j) == pre.key_at(
                        if j < i {
                            j
                        } else {
                            j + 1
                        },
                    ) by {}
                    assert(self.wf());
                    assert forall|k: Seq<char>|
                        k != name@ implies #[trigger] self.has(k) == pre.has(k) && (pre.has(k)
                            ==> self.view()[k] == pre.view()[k]) by {
                        if pre.has(k) {
                            let j = choose|j: int|
                                0 <= j < pre.entries@.len() && pre.key_at(j) == k;
                            let j2 = if j < i {
                                j
                            } else {
                                j - 1
                            };
                            assert(self.key_at(j2) == k);
                            pre.lemma_entry(j);
                            self.lemma_entry(j2);
                        }
                        if self.has(k) {
                            let j = choose|j: int| 0 <= j < n && self.key_at(j) == k;
                            let j2 = if j < i {
                                j
                            } else {
                                j + 1
                            };
                            assert(pre.key_at(j2) == k);
                        }
                    }
                    if self.has(name@) {
                        let j = choose|j: int| 0 <= j < n && self.key_at(j) == name@;
                        let j2 = if j < i {
                            j
                        } else {
                            j + 1
                        };
                        assert(pre.key_at(j2) == name@);
                    }
                    assert(self.view() =~= pre.view().remove(name@));
                }
                Some(score)
            },
            None => {
                proof {
                    assert(pre.view() =~= pre.view().remove(name@));
                }
                None
            },
        }
    }
}

} // verus!
