//! An insertion-ordered map from integer ids to values: the ids live in an
//! `IndexSet`, the values in a vector kept aligned with it.

use indexmap::IndexSet;
use vstd::prelude::*;

verus! {

#[verifier::external_type_specification]
#[verifier::external_body]
#[verifier::reject_recursive_types(T)]
#[verifier::reject_recursive_types(S)]
pub struct ExIndexSet<T, S>(IndexSet<T, S>);

/// The ids held by an `IndexSet`, in their order.
pub uninterp spec fn keys_of(s: IndexSet<u32>) -> Seq<u32>;

/// Relies on `IndexSet::new`: a new set holds nothing.
#[verifier::external_body]
fn keys_new() -> (r: IndexSet<u32>)
    ensures
        keys_of(r) == Seq::<u32>::empty(),
{
    IndexSet::new()
}

/// Relies on `IndexSet::get_index_of`: the position of `k`, or `None` when absent.
#[verifier::external_body]
fn keys_index_of(s: &IndexSet<u32>, k: u32) -> (r: Option<usize>)
    ensures
        match r {
            Some(i) => i < keys_of(*s).len() && keys_of(*s)[i as int] == k,
            None => !keys_of(*s).contains(k),
        },
{
    s.get_index_of(&k)
}

/// Relies on `IndexSet::get_index`: the value at position `i`.
#[verifier::external_body]
fn keys_get_index(s: &IndexSet<u32>, i: usize) -> (r: u32)
    requires
        i < keys_of(*s).len(),
    ensures
        r == keys_of(*s)[i as int],
{
    *s.get_index(i).unwrap()
}

/// Relies on `IndexSet::insert`: an absent value is appended at the end.
#[verifier::external_body]
fn keys_push(s: &mut IndexSet<u32>, k: u32)
    requires
        !keys_of(*old(s)).contains(k),
    ensures
        keys_of(*final(s)) == keys_of(*old(s)).push(k),
{
    s.insert(k);
}

/// Relies on `IndexSet::shift_remove_full`: removes `k` and shifts the later
/// values down by one, returning the position it had.
#[verifier::external_body]
fn keys_shift_remove(s: &mut IndexSet<u32>, k: u32) -> (r: Option<usize>)
    ensures
        match r {
            Some(i) => i < keys_of(*old(s)).len() && keys_of(*old(s))[i as int] == k
                && keys_of(*final(s)) == keys_of(*old(s)).remove(i as int),
            None => !keys_of(*old(s)).contains(k) && keys_of(*final(s)) == keys_of(*old(s)),
        },
{
    s.shift_remove_full(&k).map(|(i, _)| i)
}

/// Relies on `IndexSet::clone`: the copy holds the same values in the same order.
#[verifier::external_body]
fn keys_clone(s: &IndexSet<u32>) -> (r: IndexSet<u32>)
    ensures
        keys_of(r) == keys_of(*s),
{
    s.clone()
}

/// A map from `u32` ids to values that keeps its entries in insertion order.
///
/// Replacing the value of a present id keeps its place; removing an id keeps
/// the relative order of the others.
pub struct OrderedMap<V> {
    keys: IndexSet<u32>,
    values: Vec<V>,
}

impl<V> OrderedMap<V> {
    /// The ids, in iteration order.
    pub closed spec fn keys(&self) -> Seq<u32> {
        keys_of(self.keys)
    }

    /// The values, aligned with `keys`.
    pub closed spec fn values(&self) -> Seq<V> {
        self.values@
    }

    /// The ids are distinct and each has exactly one value.
    pub closed spec fn wf(&self) -> bool {
        &&& self.keys().len() == self.values().len()
        &&& self.keys().no_duplicates()
    }

    /// The map from each id to its value.
    pub open spec fn view(&self) -> Map<u32, V> {
        Map::new(
            |k: u32| self.keys().contains(k),
            |k: u32| self.values()[self.keys().index_of(k)],
        )
    }

    pub proof fn lemma_wf_len(&self)
        requires
            self.wf(),
        ensures
            self.keys().len() == self.values().len(),
            self.keys().no_duplicates(),
    {
    }

    pub fn new() -> (r: Self)
        ensures
            r.wf(),
            r.keys() == Seq::<u32>::empty(),
            r@ == Map::<u32, V>::empty(),
    {
        let r = OrderedMap { keys: keys_new(), values: Vec::new() };
        assert(r@ =~= Map::<u32, V>::empty());
        r
    }

    pub fn len(&self) -> (r: usize)
        requires
            self.wf(),
        ensures
            r == self.keys().len(),
            r == self@.len(),
    {
        proof { self.lemma_dom_finite(); }
        self.values.len()
    }

    proof fn lemma_dom_finite(&self)
        requires
            self.wf(),
        ensures
            self@.dom() == self.keys().to_set(),
            self@.len() == self.keys().len(),
    {
        assert(self@.dom() =~= self.keys().to_set());
        self.keys().unique_seq_to_set();
    }

    proof fn lemma_index(&self, i: int)
        requires
            self.wf(),
            0 <= i < self.keys().len(),
        ensures
            self@.contains_key(self.keys()[i]),
            self@[self.keys()[i]] == self.values()[i],
            self.keys().index_of(self.keys()[i]) == i,
    {
        let k = self.keys()[i];
        assert(self.keys().contains(k));
    }

    pub fn contains_key(&self, k: u32) -> (r: bool)
        requires
            self.wf(),
        ensures
            r == self@.contains_key(k),
    {
        keys_index_of(&self.keys, k).is_some()
    }

    pub fn get(&self, k: u32) -> (r: Option<&V>)
        requires
            self.wf(),
        ensures
            match r {
                Some(v) => self@.contains_key(k) && *v == self@[k],
                None => !self@.contains_key(k),
            },
    {
        match keys_index_of(&self.keys, k) {
            Some(i) => {
                proof { self.lemma_index(i as int); }
                Some(&self.values[i])
            },
            None => None,
        }
    }

    /// The id and value at position `i` of the iteration order.
    pub fn entry_at(&self, i: usize) -> (r: (u32, &V))
        requires
            self.wf(),
            i < self.keys().len(),
        ensures
            r.0 == self.keys()[i as int],
            *r.1 == self.values()[i as int],
            *r.1 == self@[r.0],
    {
        proof { self.lemma_index(i as int); }
        (self.id_at(i), &self.values[i])
    }

    /// The id at position `i` of the iteration order.
    pub fn id_at(&self, i: usize) -> (r: u32)
        requires
            self.wf(),
            i < self.keys().len(),
        ensures
            r == self.keys()[i as int],
    {
        keys_get_index(&self.keys, i)
    }

    /// The position of `k` in the iteration order, if present.
    pub fn index_of(&self, k: u32) -> (r: Option<usize>)
        requires
            self.wf(),
        ensures
            match r {
                Some(i) => i < self.keys().len() && self.keys()[i as int] == k
                    && self@.contains_key(k) && self@[k] == self.values()[i as int],
                None => !self@.contains_key(k),
            },
    {
        let r = keys_index_of(&self.keys, k);
        proof {
            if let Some(i) = r {
                self.lemma_index(i as int);
            }
        }
        r
    }

    /// Mutable access to the value at position `i` of the iteration order.
    pub fn value_mut_at(&mut self, i: usize) -> (r: &mut V)
        requires
            old(self).wf(),
            i < old(self).keys().len(),
        ensures
            *r == old(self).values()[i as int],
            *r == old(self)@[old(self).keys()[i as int]],
            final(self).wf(),
            final(self).keys() == old(self).keys(),
            final(self).values() == old(self).values().update(i as int, *final(r)),
            final(self)@ == old(self)@.insert(old(self).keys()[i as int], *final(r)),
    {
        proof { self.lemma_index(i as int); }
        &mut self.values[i]
    }

    /// Sets the value of `k`. A present id keeps its place and its old value
    /// is returned; a new id goes to the end.
    pub fn insert(&mut self, k: u32, v: V) -> (r: Option<V>)
        requires
            old(self).wf(),
        ensures
            final(self).wf(),
            final(self)@ == old(self)@.insert(k, v),
            old(self)@.contains_key(k) ==> final(self).keys() == old(self).keys() && r == Some(
                old(self)@[k],
            ),
            !old(self)@.contains_key(k) ==> final(self).keys() == old(self).keys().push(k)
                && r is None,
    {
        match keys_index_of(&self.keys, k) {
            Some(i) => {
                proof { self.lemma_index(i as int); }
                self.values.push(v);
                let prev = self.values.swap_remove(i);
                assert(self.values@ =~= old(self).values@.update(i as int, v));
                proof {
                    assert forall|x: u32| #[trigger]
                        self@.contains_key(x) == old(self)@.insert(k, v).contains_key(x) by {}
                    assert forall|x: u32| self@.contains_key(x) implies #[trigger] self@[x] == old(
                        self,
                    )@.insert(k, v)[x] by {
                        let j = self.keys().index_of(x);
                        assert(self.keys().contains(x));
                    }
                    assert(self@ =~= old(self)@.insert(k, v));
                }
                Some(prev)
            },
            None => {
                keys_push(&mut self.keys, k);
                self.values.push(v);
                proof {
                    let ok = old(self).keys();
                    assert(self.keys().no_duplicates());
                    assert forall|x: u32| self@.contains_key(x) implies #[trigger] self@[x] == old(
                        self,
                    )@.insert(k, v)[x] by {
                        assert(self.keys().contains(x));
                        if x == k {
                            self.lemma_index(ok.len() as int);
                        } else {
                            let j = self.keys().index_of(x);
                            assert(ok[j] == x);
                            assert(ok.contains(x));
                            old(self).lemma_index(j);
                        }
                    }
                    assert forall|x: u32| #[trigger]
                        self@.contains_key(x) == old(self)@.insert(k, v).contains_key(x) by {
                        if ok.contains(x) {
                            let j = ok.index_of(x);
                            assert(self.keys()[j] == x);
                        }
                        if x != k && self.keys().contains(x) {
                            let j = self.keys().index_of(x);
                            assert(j < ok.len());
                            assert(ok[j] == x);
                        }
                        if x == k {
                            assert(self.keys()[ok.len() as int] == k);
                        }
                    }
                    assert(self@ =~= old(self)@.insert(k, v));
                }
                None
            },
        }
    }

    /// Removes `k`; the ids after it keep their relative order.
    pub fn remove(&mut self, k: u32) -> (r: Option<V>)
        requires
            old(self).wf(),
        ensures
            final(self).wf(),
            final(self)@ == old(self)@.remove(k),
            old(self)@.contains_key(k) ==> r == Some(old(self)@[k]) && final(self).keys()
                == old(self).keys().remove(old(self).keys().index_of(k)),
            !old(self)@.contains_key(k) ==> r is None && final(self).keys() == old(self).keys(),
    {
        match keys_shift_remove(&mut self.keys, k) {
            Some(i) => {
                proof { old(self).lemma_index(i as int); }
                let prev = self.values.remove(i);
                proof {
                    let ok = old(self).keys();
                    let nk = self.keys();
                    ok.remove_ensures(i as int);
                    old(self).values().remove_ensures(i as int);
                    assert(nk.no_duplicates()) by {
                        assert forall|a: int, b: int|
                            0 <= a < nk.len() && 0 <= b < nk.len() && a != b implies nk[a]
                            != nk[b] by {
                            let a2 = if a < i { a } else { a + 1 };
                            let b2 = if b < i { b } else { b + 1 };
                            assert(nk[a] == ok[a2]);
                            assert(nk[b] == ok[b2]);
                        }
                    }
                    assert forall|x: u32| #[trigger]
                        self@.contains_key(x) == old(self)@.remove(k).contains_key(x) by {
                        if nk.contains(x) {
                            let j = nk.index_of(x);
                            let j2 = if j < i { j } else { j + 1 };
                            assert(ok[j2] == x);
                            assert(j2 != i);
                        }
                        if x != k && ok.contains(x) {
                            let j = ok.index_of(x);
                            assert(j != i);
                            let j2 = if j < i { j } else { j - 1 };
                            assert(nk[j2] == x);
                        }
                    }
                    assert forall|x: u32| self@.contains_key(x) implies #[trigger] self@[x]
                        == old(self)@.remove(k)[x] by {
                        assert(nk.contains(x));
                        let j = nk.index_of(x);
                        let j2 = if j < i { j } else { j + 1 };
                        assert(ok[j2] == x);
                        old(self).lemma_index(j2);
                    }
                    assert(self@ =~= old(self)@.remove(k));
                }
                Some(prev)
            },
            None => {
                assert(self@ =~= old(self)@.remove(k));
                None
            },
        }
    }
}

/// Values that can be copied into a value with the same content.
pub trait Replica: Sized {
    /// `other` holds the same content as `self`.
    spec fn same(&self, other: &Self) -> bool;

    fn replica(&self) -> (r: Self)
        ensures
            self.same(&r),
    ;
}

impl<V: Replica> OrderedMap<V> {
    /// The same ids in the same order, each with a value of the same content.
    pub open spec fn same_entries(&self, other: &Self) -> bool {
        &&& self.keys() == other.keys()
        &&& self.values().len() == other.values().len()
        &&& forall|i: int|
            0 <= i < self.values().len() ==> #[trigger] self.values()[i].same(&other.values()[i])
    }

    /// Maps with the same entries agree on ids, on well-formedness and on
    /// where each id's value sits.
    pub proof fn lemma_same_entries(&self, other: &Self, k: u32)
        requires
            self.same_entries(other),
            self.wf(),
        ensures
            other.wf(),
            self@.dom() == other@.dom(),
            self@.contains_key(k) ==> self@[k].same(&other@[k]),
    {
        assert(self@.dom() =~= other@.dom());
        if self@.contains_key(k) {
            let i = self.keys().index_of(k);
            assert(self.keys().contains(k));
            assert(0 <= i < self.values().len());
            assert(self.values()[i].same(&other.values()[i]));
        }
    }
}

impl<V: Replica> Replica for OrderedMap<V> {
    open spec fn same(&self, other: &Self) -> bool {
        self.same_entries(other)
    }

    fn replica(&self) -> (r: Self) {
        let mut values: Vec<V> = Vec::new();
        let mut i: usize = 0;
        while i < self.values.len()
            invariant
                i <= self.values@.len(),
                values@.len() == i,
                forall|j: int| 0 <= j < i ==> #[trigger] self.values@[j].same(&values@[j]),
            decreases self.values@.len() - i,
        {
            let v = self.values[i].replica();
            values.push(v);
            i = i + 1;
        }
        OrderedMap { keys: keys_clone(&self.keys), values }
    }
}

} // verus!
