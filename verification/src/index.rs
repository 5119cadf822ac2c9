//! Per-address lists of ids: a recipient's streams, an owner's templates.
//!
//! Each address owns one list. Lists kept by [`AddressIndex::insert_sorted`]
//! are strictly increasing, which makes them usable for ordered pagination.
use vstd::prelude::*;
use crate::address::Address;

verus! {

/// A sequence whose elements strictly increase.
pub open spec fn strictly_sorted(s: Seq<u64>) -> bool {
    forall|i: int, j: int| 0 <= i < j < s.len() ==> s[i] < s[j]
}

/// A sequence whose elements never decrease.
pub open spec fn sorted(s: Seq<u64>) -> bool {
    forall|i: int, j: int| 0 <= i <= j < s.len() ==> s[i] <= s[j]
}

/// Result of a binary search: the position of a match, or the position at
/// which the value would be inserted.
#[derive(Clone, Copy, Debug, PartialEq, Eq, Structural)]
pub enum SearchResult {
    Found(usize),
    NotFound(usize),
}

/// Binary search for `x` in `s`.
///
/// `Found(i)` means `s[i] == x`. `NotFound(p)` means `x` is not at any
/// position inspected; on a sorted sequence it means `x` is absent, every
/// element before `p` is smaller and every element from `p` on is larger.
pub fn binary_search(s: &Vec<u64>, x: u64) -> (r: SearchResult)
    ensures
        r matches SearchResult::Found(i) ==> i < s@.len() && s@[i as int] == x,
        r matches SearchResult::NotFound(p) ==> p <= s@.len() && (sorted(s@) ==> {
            &&& !s@.contains(x)
            &&& forall|k: int| 0 <= k < p ==> s@[k] < x
            &&& forall|k: int| p <= k < s@.len() ==> s@[k] > x
        }),
{
    let mut lo: usize = 0;
    let mut hi: usize = s.len();
    while lo < hi
        invariant
            0 <= lo <= hi <= s@.len(),
            sorted(s@) ==> forall|k: int| 0 <= k < lo ==> s@[k] < x,
            sorted(s@) ==> forall|k: int| hi <= k < s@.len() ==> s@[k] > x,
        decreases hi - lo,
    {
        let mid = lo + (hi - lo) / 2;
        let v = s[mid];
        if v == x {
            return SearchResult::Found(mid);
        } else if v < x {
            lo = mid + 1;
        } else {
            hi = mid;
        }
    }
    proof {
        if sorted(s@) {
            assert forall|k: int| 0 <= k < s@.len() implies s@[k] != x by {
                if k < lo {
                } else {
                }
            }
        }
    }
    SearchResult::NotFound(lo)
}

/// Lists of ids, one per address.
pub struct AddressIndex {
    pub owners: Vec<Address>,
    pub lists: Vec<Vec<u64>>,
}

impl AddressIndex {
    /// Owners are distinct and each has exactly one list.
    pub open spec fn wf(&self) -> bool {
        &&& self.owners@.len() == self.lists@.len()
        &&& self.owners@.no_duplicates()
    }

    /// The position of `a` among the owners (meaningful when present).
    pub open spec fn slot(&self, a: Address) -> int {
        choose|i: int| 0 <= i < self.owners@.len() && self.owners@[i] == a
    }

    /// The list of ids held for `a` (empty when `a` has none).
    pub open spec fn ids_of(&self, a: Address) -> Seq<u64> {
        if self.owners@.contains(a) {
            self.lists@[self.slot(a)]@
        } else {
            Seq::empty()
        }
    }

    /// Every list is strictly increasing.
    pub open spec fn all_strictly_sorted(&self) -> bool {
        forall|a: Address| strictly_sorted(#[trigger] self.ids_of(a))
    }

    pub proof fn lemma_slot(&self, i: int)
        requires
            self.wf(),
            0 <= i < self.owners@.len(),
        ensures
            self.slot(self.owners@[i]) == i,
            self.ids_of(self.owners@[i]) == self.lists@[i]@,
    {
        let a = self.owners@[i];
        assert(self.owners@.contains(a));
        let j = self.slot(a);
        assert(0 <= j < self.owners@.len() && self.owners@[j] == a);
    }

    /// An index with no lists.
    pub fn new() -> (r: AddressIndex)
        ensures
            r.wf(),
            forall|a: Address| r.ids_of(a) == Seq::<u64>::empty(),
    {
        AddressIndex { owners: Vec::new(), lists: Vec::new() }
    }

    /// The position of `a` among the owners, if it has a list.
    pub fn find(&self, a: Address) -> (r: Option<usize>)
        requires
            self.wf(),
        ensures
            r is None <==> !self.owners@.contains(a),
            r matches Some(i) ==> i < self.owners@.len() && self.owners@[i as int] == a
                && i == self.slot(a),
    {
        let mut i: usize = 0;
        while i < self.owners.len()
            invariant
                self.wf(),
                0 <= i <= self.owners@.len(),
                forall|j: int| 0 <= j < i ==> self.owners@[j] != a,
            decreases self.owners@.len() - i,
        {
            if self.owners[i] == a {
                proof {
                    self.lemma_slot(i as int);
                }
                return Some(i);
            }
            i = i + 1;
        }
        None
    }

    /// A copy of the list held for `a`.
    pub fn get(&self, a: Address) -> (r: Vec<u64>)
        requires
            self.wf(),
        ensures
            r@ == self.ids_of(a),
    {
        match self.find(a) {
            None => Vec::new(),
            Some(i) => {
                proof {
                    self.lemma_slot(i as int);
                }
                copy_ids(&self.lists[i])
            },
        }
    }

    /// The number of ids held for `a`.
    pub fn count(&self, a: Address) -> (r: usize)
        requires
            self.wf(),
        ensures
            r == self.ids_of(a).len(),
    {
        match self.find(a) {
            None => 0,
            Some(i) => {
                proof {
                    self.lemma_slot(i as int);
                }
                self.lists[i].len()
            },
        }
    }

    /// The list of `a` is replaced by `ids`; every other list is unchanged.
    pub fn set(&mut self, a: Address, ids: Vec<u64>)
        requires
            old(self).wf(),
        ensures
            final(self).wf(),
            final(self).ids_of(a) == ids@,
            forall|b: Address| b != a ==> final(self).ids_of(b) == old(self).ids_of(b),
    {
        let ghost ids_view = ids@;
        match self.find(a) {
            Some(i) => {
                self.lists.set(i, ids);
                proof {
                    self.lemma_slot(i as int);
                    assert forall|b: Address| b != a implies self.ids_of(b) == old(self).ids_of(b) by {
                        if old(self).owners@.contains(b) {
                            let j = old(self).slot(b);
                            old(self).lemma_slot(j);
                            self.lemma_slot(j);
                        }
                    }
                }
            },
            None => {
                self.owners.push(a);
                self.lists.push(ids);
                proof {
                    let n = old(self).owners@.len() as int;
                    assert(self.owners@.no_duplicates()) by {
                        assert forall|x: int, y: int|
                            0 <= x < self.owners@.len() && 0 <= y < self.owners@.len() && x != y
                            implies self.owners@[x] != self.owners@[y] by {
                            if x == n {
                                assert(old(self).owners@.contains(self.owners@[y]) || y == n);
                            } else if y == n {
                                assert(old(self).owners@.contains(self.owners@[x]));
                            }
                        }
                    }
                    self.lemma_slot(n);
                    assert forall|b: Address| b != a implies self.ids_of(b) == old(self).ids_of(b) by {
                        if old(self).owners@.contains(b) {
                            let j = old(self).slot(b);
                            old(self).lemma_slot(j);
                            assert(self.owners@[j] == b);
                            self.lemma_slot(j);
                        } else {
                            assert(!self.owners@.contains(b)) by {
                                if self.owners@.contains(b) {
                                    let k = choose|k: int| 0 <= k < self.owners@.len() && self.owners@[k] == b;
                                    if k < n {
                                        assert(old(self).owners@[k] == b);
                                    }
                                }
                            }
                        }
                    }
                }
            },
        }
        assert(self.ids_of(a) == ids_view);
    }

    /// Adds `id` to the list of `a`, keeping it strictly increasing.
    pub fn insert_sorted(&mut self, a: Address, id: u64)
        requires
            old(self).wf(),
            strictly_sorted(old(self).ids_of(a)),
            !old(self).ids_of(a).contains(id),
        ensures
            final(self).wf(),
            strictly_sorted(final(self).ids_of(a)),
            final(self).ids_of(a).len() == old(self).ids_of(a).len() + 1,
            forall|x: u64| #[trigger] final(self).ids_of(a).contains(x)
                <==> (old(self).ids_of(a).contains(x) || x == id),
            forall|b: Address| b != a ==> final(self).ids_of(b) == old(self).ids_of(b),
    {
        let mut ids = self.get(a);
        let ghost s = ids@;
        match binary_search(&ids, id) {
            SearchResult::Found(_) => {
                assert(false);
            },
            SearchResult::NotFound(p) => {
                ids.insert(p, id);
                proof {
                    let r = ids@;
                    assert(r =~= s.subrange(0, p as int).push(id) + s.subrange(p as int, s.len() as int));
                    assert forall|i: int, j: int| 0 <= i < j < r.len() implies r[i] < r[j] by {
                        if j < p {
                        } else if j == p {
                        } else if i < p {
                            assert(r[j] == s[j - 1]);
                        } else if i == p {
                            assert(r[j] == s[j - 1]);
                        } else {
                            assert(r[i] == s[i - 1] && r[j] == s[j - 1]);
                        }
                    }
                    assert forall|x: u64| r.contains(x) <==> (s.contains(x) || x == id) by {
                        if r.contains(x) {
                            let k = choose|k: int| 0 <= k < r.len() && r[k] == x;
                            if k < p {
                                assert(s[k] == x);
                            } else if k > p {
                                assert(s[k - 1] == x);
                            }
                        }
                        if s.contains(x) {
                            let k = choose|k: int| 0 <= k < s.len() && s[k] == x;
                            if k < p {
                                assert(r[k] == x);
                            } else {
                                assert(r[k + 1] == x);
                            }
                        }
                        if x == id {
                            assert(r[p as int] == x);
                        }
                    }
                }
            },
        }
        self.set(a, ids);
    }

    /// Removes one occurrence of `id` from the list of `a`, found by binary
    /// search. Returns whether an occurrence was found and removed.
    pub fn remove_id(&mut self, a: Address, id: u64) -> (found: bool)
        requires
            old(self).wf(),
        ensures
            final(self).wf(),
            found ==> exists|k: int|
                0 <= k < old(self).ids_of(a).len() && old(self).ids_of(a)[k] == id
                    && final(self).ids_of(a) == old(self).ids_of(a).remove(k),
            !found ==> *final(self) == *old(self),
            !found && sorted(old(self).ids_of(a)) ==> !old(self).ids_of(a).contains(id),
            forall|b: Address| b != a ==> final(self).ids_of(b) == old(self).ids_of(b),
    {
        let mut ids = self.get(a);
        let ghost s = ids@;
        match binary_search(&ids, id) {
            SearchResult::Found(k) => {
                ids.remove(k);
                self.set(a, ids);
                assert(self.ids_of(a) == s.remove(k as int));
                true
            },
            SearchResult::NotFound(_) => false,
        }
    }

    /// Appends `id` to the list of `a`.
    pub fn push(&mut self, a: Address, id: u64)
        requires
            old(self).wf(),
        ensures
            final(self).wf(),
            final(self).ids_of(a) == old(self).ids_of(a).push(id),
            forall|b: Address| b != a ==> final(self).ids_of(b) == old(self).ids_of(b),
    {
        let mut ids = self.get(a);
        ids.push(id);
        self.set(a, ids);
    }
}

/// Removing the `k`-th element of a strictly increasing sequence leaves a
/// strictly increasing sequence with exactly that element gone.
pub proof fn lemma_remove_strictly_sorted(s: Seq<u64>, k: int)
    requires
        strictly_sorted(s),
        0 <= k < s.len(),
    ensures
        strictly_sorted(s.remove(k)),
        forall|x: u64| #[trigger] s.remove(k).contains(x) <==> (s.contains(x) && x != s[k]),
{
    let r = s.remove(k);
    assert forall|i: int, j: int| 0 <= i < j < r.len() implies r[i] < r[j] by {
        if j < k {
        } else if i < k {
            assert(r[j] == s[j + 1]);
        } else {
            assert(r[i] == s[i + 1] && r[j] == s[j + 1]);
        }
    }
    assert forall|x: u64| r.contains(x) <==> (s.contains(x) && x != s[k]) by {
        if r.contains(x) {
            let i = choose|i: int| 0 <= i < r.len() && r[i] == x;
            if i < k {
                assert(s[i] == x);
            } else {
                assert(s[i + 1] == x);
            }
        }
        if s.contains(x) && x != s[k] {
            let i = choose|i: int| 0 <= i < s.len() && s[i] == x;
            if i < k {
                assert(r[i] == x);
            } else {
                assert(i != k);
                assert(r[i - 1] == x);
            }
        }
    }
}

/// A copy of `v`.
pub fn copy_ids(v: &Vec<u64>) -> (r: Vec<u64>)
    ensures
        r@ == v@,
{
    let mut r: Vec<u64> = Vec::new();
    let mut i: usize = 0;
    while i < v.len()
        invariant
            0 <= i <= v@.len(),
            r@ == v@.subrange(0, i as int),
        decreases v@.len() - i,
    {
        r.push(v[i]);
        i = i + 1;
    }
    assert(r@ =~= v@);
    r
}

} // verus!
