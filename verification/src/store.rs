use vstd::prelude::*;
use vstd::slice::slice_index_get;
use crate::address::{address_eq, Address};

verus! {

/// A content-addressed store: the canonical records of one entity kind,
/// keyed by derived address. Its view is the map from occupied address to
/// record value. `insert_new` demands an unoccupied address, so occupancy is
/// the store's structural guard against duplicate submissions.
pub struct Store<T> {
    entries: Vec<(Address, T)>,
}

impl<T: View> Store<T> {
    /// The map described by a prefix of the entries.
    spec fn map_of(s: Seq<(Address, T)>) -> Map<Seq<u8>, T::V>
        decreases s.len(),
    {
        if s.len() == 0 {
            Map::empty()
        } else {
            Self::map_of(s.drop_last()).insert(s.last().0@, s.last().1@)
        }
    }

    spec fn distinct(s: Seq<(Address, T)>) -> bool {
        forall|i: int, j: int| 0 <= i < j < s.len() ==> s[i].0@ != s[j].0@
    }

    /// The stored addresses are pairwise distinct.
    pub closed spec fn wf(self) -> bool {
        Self::distinct(self.entries@)
    }

    proof fn lemma_contains(s: Seq<(Address, T)>, k: Seq<u8>)
        ensures
            Self::map_of(s).contains_key(k) <==> exists|i: int| 0 <= i < s.len() && s[i].0@ == k,
        decreases s.len(),
    {
        if s.len() == 0 {
        } else {
            Self::lemma_contains(s.drop_last(), k);
            if s.last().0@ == k {
                assert(s[s.len() - 1].0@ == k);
            } else {
                assert forall|i: int| 0 <= i < s.len() && s[i].0@ == k implies Self::map_of(
                    s,
                ).contains_key(k) by {
                    assert(s.drop_last()[i] == s[i]);
                }
                if exists|i: int| 0 <= i < s.drop_last().len() && s.drop_last()[i].0@ == k {
                    let i = choose|i: int|
                        0 <= i < s.drop_last().len() && s.drop_last()[i].0@ == k;
                    assert(s[i].0@ == k);
                }
            }
        }
    }

    proof fn lemma_get(s: Seq<(Address, T)>, i: int)
        requires
            Self::distinct(s),
            0 <= i < s.len(),
        ensures
            Self::map_of(s).contains_key(s[i].0@),
            Self::map_of(s)[s[i].0@] == s[i].1@,
        decreases s.len(),
    {
        if i == s.len() - 1 {
        } else {
            assert(s.drop_last()[i] == s[i]);
            assert(Self::distinct(s.drop_last())) by {
                assert forall|x: int, y: int|
                    0 <= x < y < s.drop_last().len() implies s.drop_last()[x].0@
                    != s.drop_last()[y].0@ by {
                    assert(s.drop_last()[x] == s[x]);
                    assert(s.drop_last()[y] == s[y]);
                }
            }
            Self::lemma_get(s.drop_last(), i);
            assert(s[i].0@ != s.last().0@);
        }
    }

    proof fn lemma_distinct_drop_last(s: Seq<(Address, T)>)
        requires
            Self::distinct(s),
            s.len() > 0,
        ensures
            Self::distinct(s.drop_last()),
    {
        assert forall|x: int, y: int|
            0 <= x < y < s.drop_last().len() implies s.drop_last()[x].0@
            != s.drop_last()[y].0@ by {
            assert(s.drop_last()[x] == s[x]);
            assert(s.drop_last()[y] == s[y]);
        }
    }

    proof fn lemma_distinct_remove(s: Seq<(Address, T)>, i: int)
        requires
            Self::distinct(s),
            0 <= i < s.len(),
        ensures
            Self::distinct(s.remove(i)),
    {
        let r = s.remove(i);
        assert forall|x: int, y: int| 0 <= x < y < r.len() implies r[x].0@ != r[y].0@ by {
            if x < i {
                assert(r[x] == s[x]);
            } else {
                assert(r[x] == s[x + 1]);
            }
            if y < i {
                assert(r[y] == s[y]);
            } else {
                assert(r[y] == s[y + 1]);
            }
        }
    }

    proof fn lemma_remove(s: Seq<(Address, T)>, i: int)
        requires
            Self::distinct(s),
            0 <= i < s.len(),
        ensures
            Self::map_of(s.remove(i)) == Self::map_of(s).remove(s[i].0@),
        decreases s.len(),
    {
        let k = s[i].0@;
        if i == s.len() - 1 {
            assert(s.remove(i) =~= s.drop_last());
            Self::lemma_distinct_drop_last(s);
            Self::lemma_contains(s.drop_last(), k);
            assert forall|x: int| 0 <= x < s.drop_last().len() implies s.drop_last()[x].0@
                != k by {
                assert(s.drop_last()[x] == s[x]);
            }
            assert(!Self::map_of(s.drop_last()).contains_key(k));
            assert(Self::map_of(s.drop_last()).insert(k, s[i].1@).remove(k) =~= Self::map_of(
                s.drop_last(),
            ));
        } else {
            let d = s.drop_last();
            let e = s.last();
            assert(s.remove(i).len() == s.len() - 1);
            assert(s.remove(i).last() == e);
            assert(s.remove(i).drop_last() =~= d.remove(i));
            Self::lemma_distinct_drop_last(s);
            assert(d[i] == s[i]);
            Self::lemma_remove(d, i);
            assert(Self::map_of(s.remove(i)) == Self::map_of(d.remove(i)).insert(e.0@, e.1@));
            assert(k != e.0@);
            assert(Self::map_of(d).remove(k).insert(e.0@, e.1@) =~= Self::map_of(d).insert(
                e.0@,
                e.1@,
            ).remove(k));
        }
    }

    /// Creates an empty store.
    pub fn new() -> (s: Self)
        ensures
            s.wf(),
            s@ == Map::<Seq<u8>, T::V>::empty(),
    {
        Store { entries: Vec::new() }
    }

    /// Looks up the record at address `a`, if that address is occupied.
    pub fn get(&self, a: &Address) -> (r: Option<&T>)
        requires
            self.wf(),
        ensures
            match r {
                Some(v) => self@.contains_key(a@) && v@ == self@[a@],
                None => !self@.contains_key(a@),
            },
    {
        let n = self.entries.len();
        let mut i: usize = 0;
        while i < n
            invariant
                self.wf(),
                n == self.entries@.len(),
                i <= n,
                forall|j: int| 0 <= j < i ==> self.entries@[j].0@ != a@,
            decreases n - i,
        {
            let e = slice_index_get(self.entries.as_slice(), i);
            if address_eq(&e.0, a) {
                proof {
                    Self::lemma_get(self.entries@, i as int);
                }
                return Some(&e.1);
            }
            i = i + 1;
        }
        proof {
            Self::lemma_contains(self.entries@, a@);
        }
        None
    }

    /// Reports whether the address `a` is occupied.
    pub fn contains(&self, a: &Address) -> (r: bool)
        requires
            self.wf(),
        ensures
            r == self@.contains_key(a@),
    {
        match self.get(a) {
            Some(_) => true,
            None => false,
        }
    }

    /// Stores `v` at the unoccupied address `a`.
    pub fn insert_new(&mut self, a: Address, v: T)
        requires
            old(self).wf(),
            !old(self)@.contains_key(a@),
        ensures
            final(self).wf(),
            final(self)@ == old(self)@.insert(a@, v@),
    {
        proof {
            Self::lemma_contains(self.entries@, a@);
        }
        let ghost s0 = self.entries@;
        let ghost ka = a@;
        self.entries.push((a, v));
        proof {
            assert(self.entries@.drop_last() =~= s0);
            assert forall|i: int, j: int|
                0 <= i < j < self.entries@.len() implies self.entries@[i].0@
                != self.entries@[j].0@ by {
                if j < s0.len() {
                    assert(self.entries@[i] == s0[i]);
                    assert(self.entries@[j] == s0[j]);
                } else {
                    assert(self.entries@[i] == s0[i]);
                    assert(self.entries@[j].0@ == ka);
                }
            }
        }
    }

    /// Removes and returns the record at address `a`, if that address is
    /// occupied; otherwise leaves the store unchanged.
    pub fn remove_entry(&mut self, a: &Address) -> (r: Option<T>)
        requires
            old(self).wf(),
        ensures
            final(self).wf(),
            match r {
                Some(v) => old(self)@.contains_key(a@) && v@ == old(self)@[a@] && final(self)@
                    == old(self)@.remove(a@),
                None => !old(self)@.contains_key(a@) && final(self)@ == old(self)@,
            },
    {
        let n = self.entries.len();
        let mut i: usize = 0;
        while i < n
            invariant
                self == old(self),
                old(self).wf(),
                n == self.entries@.len(),
                i <= n,
                forall|j: int| 0 <= j < i ==> self.entries@[j].0@ != a@,
            decreases n - i,
        {
            let found = {
                let e = slice_index_get(self.entries.as_slice(), i);
                address_eq(&e.0, a)
            };
            if found {
                proof {
                    Self::lemma_get(self.entries@, i as int);
                    Self::lemma_remove(self.entries@, i as int);
                    Self::lemma_distinct_remove(self.entries@, i as int);
                }
                let entry = self.entries.remove(i);
                return Some(entry.1);
            }
            i = i + 1;
        }
        proof {
            Self::lemma_contains(self.entries@, a@);
        }
        None
    }
}

impl<T: View> View for Store<T> {
    type V = Map<Seq<u8>, T::V>;

    closed spec fn view(&self) -> Map<Seq<u8>, T::V> {
        Self::map_of(self.entries@)
    }
}

} // verus!
