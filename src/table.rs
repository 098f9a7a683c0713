//! A table of records keyed by address: the record store for one kind of record.
use vstd::prelude::*;
use crate::address::Address;

verus! {

/// Records of one kind, each at its own address. The rows are kept in a
/// vector; `view` is the map from address to record that they stand for.
pub struct Table<T> {
    rows: Vec<(Address, T)>,
    contents: Ghost<Map<Address, T>>,
}

impl<T> View for Table<T> {
    type V = Map<Address, T>;

    closed spec fn view(&self) -> Map<Address, T> {
        self.contents@
    }
}

impl<T> Table<T> {
    /// Each address occurs in one row at most, every row is in the map, and
    /// every address of the map has a row.
    pub closed spec fn wf(&self) -> bool {
        &&& forall|i: int, j: int|
            0 <= i < j < self.rows@.len() ==> #[trigger] self.rows@[i].0 != #[trigger] self.rows@[j].0
        &&& forall|i: int|
            0 <= i < self.rows@.len() ==> {
                &&& self.contents@.contains_key(#[trigger] self.rows@[i].0)
                &&& self.contents@[self.rows@[i].0] == self.rows@[i].1
            }
        &&& forall|a: Address|
            #[trigger] self.contents@.contains_key(a) ==> exists|i: int|
                0 <= i < self.rows@.len() && #[trigger] self.rows@[i].0 == a
    }

    /// An empty table.
    pub fn new() -> (r: Table<T>)
        ensures
            r.wf(),
            r@ == Map::<Address, T>::empty(),
    {
        Table { rows: Vec::new(), contents: Ghost(Map::empty()) }
    }

    /// The row that holds `a`, if any.
    fn position(&self, a: &Address) -> (r: Option<usize>)
        requires
            self.wf(),
        ensures
            match r {
                Some(i) => i < self.rows@.len() && self.rows@[i as int].0 == *a,
                None => !self@.contains_key(*a),
            },
    {
        let mut i: usize = 0;
        while i < self.rows.len()
            invariant
                0 <= i <= self.rows@.len(),
                forall|k: int| 0 <= k < i ==> #[trigger] self.rows@[k].0 != *a,
            decreases self.rows@.len() - i,
        {
            if self.rows[i].0.same_as(a) {
                return Some(i);
            }
            i = i + 1;
        }
        None
    }

    /// Whether a record is stored at `a`.
    pub fn contains(&self, a: &Address) -> (r: bool)
        requires
            self.wf(),
        ensures
            r == self@.contains_key(*a),
    {
        match self.position(a) {
            Some(_) => true,
            None => false,
        }
    }

    /// The record at `a`, if any.
    pub fn get(&self, a: &Address) -> (r: Option<&T>)
        requires
            self.wf(),
        ensures
            match r {
                Some(v) => self@.contains_key(*a) && *v == self@[*a],
                None => !self@.contains_key(*a),
            },
    {
        match self.position(a) {
            Some(i) => Some(&self.rows[i].1),
            None => None,
        }
    }

    /// Stores `v` at the free address `a`.
    pub fn insert_new(&mut self, a: Address, v: T)
        requires
            old(self).wf(),
            !old(self)@.contains_key(a),
        ensures
            final(self).wf(),
            final(self)@ == old(self)@.insert(a, v),
    {
        let ghost prev = self.rows@;
        self.rows.push((a, v));
        self.contents = Ghost(self.contents@.insert(a, v));
        assert forall|b: Address| #[trigger] self.contents@.contains_key(b) implies exists|i: int|
            0 <= i < self.rows@.len() && #[trigger] self.rows@[i].0 == b by {
            if b == a {
                assert(self.rows@[prev.len() as int].0 == b);
            } else {
                let i = choose|i: int| 0 <= i < prev.len() && #[trigger] prev[i].0 == b;
                assert(self.rows@[i].0 == b);
            }
        }
    }

    /// Replaces the record at the occupied address `a` by `v`.
    pub fn replace(&mut self, a: &Address, v: T)
        requires
            old(self).wf(),
            old(self)@.contains_key(*a),
        ensures
            final(self).wf(),
            final(self)@ == old(self)@.insert(*a, v),
    {
        let ghost prev = self.rows@;
        let i = self.position(a).unwrap();
        let key = *a;
        self.rows.set(i, (key, v));
        self.contents = Ghost(self.contents@.insert(key, v));
        assert forall|b: Address| #[trigger] self.contents@.contains_key(b) implies exists|j: int|
            0 <= j < self.rows@.len() && #[trigger] self.rows@[j].0 == b by {
            let j = choose|j: int| 0 <= j < prev.len() && #[trigger] prev[j].0 == b;
            assert(self.rows@[j].0 == b);
        }
    }

    /// Removes the record at the occupied address `a` and hands it back.
    pub fn remove(&mut self, a: &Address) -> (r: T)
        requires
            old(self).wf(),
            old(self)@.contains_key(*a),
        ensures
            final(self).wf(),
            final(self)@ == old(self)@.remove(*a),
            r == old(self)@[*a],
    {
        let ghost prev = self.rows@;
        let i = self.position(a).unwrap();
        let (_, v) = self.rows.remove(i);
        self.contents = Ghost(self.contents@.remove(*a));
        assert forall|j: int, k: int|
            0 <= j < k < self.rows@.len() implies #[trigger] self.rows@[j].0
            != #[trigger] self.rows@[k].0 by {
            let pj = if j < i { j } else { j + 1 };
            let pk = if k < i { k } else { k + 1 };
            assert(self.rows@[j] == prev[pj]);
            assert(self.rows@[k] == prev[pk]);
        }
        assert forall|j: int| 0 <= j < self.rows@.len() implies {
            &&& self.contents@.contains_key(#[trigger] self.rows@[j].0)
            &&& self.contents@[self.rows@[j].0] == self.rows@[j].1
        } by {
            let pj = if j < i { j } else { j + 1 };
            assert(self.rows@[j] == prev[pj]);
            assert(prev[pj].0 != prev[i as int].0);
        }
        assert forall|b: Address| #[trigger] self.contents@.contains_key(b) implies exists|j: int|
            0 <= j < self.rows@.len() && #[trigger] self.rows@[j].0 == b by {
            let pj = choose|pj: int| 0 <= pj < prev.len() && #[trigger] prev[pj].0 == b;
            assert(pj != i);
            let j = if pj < i { pj } else { pj - 1 };
            assert(self.rows@[j] == prev[pj]);
        }
        v
    }
}

} // verus!
