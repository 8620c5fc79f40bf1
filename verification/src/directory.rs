//! A table of records keyed by device address.
//!
//! Both shared stores of the daemon are such tables: the registry of connected
//! devices and the store of per-device preferences. An address occurs at most
//! once.

use crate::text::same_text;
use vstd::prelude::*;

verus! {

/// The addresses of a list of keys, in order.
pub open spec fn addresses(keys: Seq<String>) -> Seq<Seq<char>> {
    keys.map_values(|k: String| k@)
}

/// A table from device address to a record of type `T`.
pub struct Directory<T> {
    keys: Vec<String>,
    values: Vec<T>,
}

impl<T> Directory<T> {
    /// Every key has its value and no address occurs twice.
    pub closed spec fn wf(&self) -> bool {
        &&& self.keys@.len() == self.values@.len()
        &&& addresses(self.keys@).no_duplicates()
    }

    /// The table as a map from address to record.
    pub closed spec fn view(&self) -> Map<Seq<char>, T> {
        Map::new(
            |a: Seq<char>| addresses(self.keys@).contains(a),
            |a: Seq<char>| self.values@[addresses(self.keys@).index_of(a)],
        )
    }

    /// A well-formed table holds finitely many addresses, as many as it has entries.
    proof fn lemma_domain(&self)
        requires
            self.wf(),
        ensures
            self@.dom() =~= addresses(self.keys@).to_set(),
            self@.dom().finite(),
            self@.dom().len() == self.keys@.len(),
    {
        let a = addresses(self.keys@);
        a.unique_seq_to_set();
        assert(self@.dom() =~= a.to_set());
    }

    /// In a well-formed table the entry at position `i` is the one found under its address.
    proof fn lemma_entry(&self, i: int)
        requires
            self.wf(),
            0 <= i < self.keys@.len(),
        ensures
            self@.contains_key(self.keys@[i]@),
            self@[self.keys@[i]@] == self.values@[i],
    {
        let a = addresses(self.keys@);
        assert(a[i] == self.keys@[i]@);
        assert(a.contains(a[i]));
        let j = a.index_of(a[i]);
        assert(0 <= j < a.len() && a[j] == a[i]);
    }

    /// The table of a well-formed directory is finite.
    pub proof fn lemma_finite(&self)
        requires
            self.wf(),
        ensures
            self@.dom().finite(),
    {
        self.lemma_domain();
    }

    /// An empty table.
    pub fn new() -> (d: Self)
        ensures
            d.wf(),
            d@ == Map::<Seq<char>, T>::empty(),
    {
        let d = Directory { keys: Vec::new(), values: Vec::new() };
        assert(d@ =~= Map::<Seq<char>, T>::empty());
        d
    }

    /// The position of an address among the keys.
    fn position(&self, address: &str) -> (at: Option<usize>)
        requires
            self.wf(),
        ensures
            match at {
                Some(i) => i < self.keys@.len() && self.keys@[i as int]@ == address@,
                None => !self@.contains_key(address@),
            },
    {
        let mut i: usize = 0;
        while i < self.keys.len()
            invariant
                i <= self.keys@.len(),
                forall|j: int| 0 <= j < i ==> self.keys@[j]@ != address@,
            decreases self.keys@.len() - i,
        {
            if same_text(self.keys[i].as_str(), address) {
                return Some(i);
            }
            i += 1;
        }
        proof {
            let a = addresses(self.keys@);
            if a.contains(address@) {
                let j = choose|j: int| 0 <= j < a.len() && a[j] == address@;
                assert(self.keys@[j]@ == address@);
            }
        }
        None
    }

    /// How many addresses the table holds.
    pub fn len(&self) -> (n: usize)
        requires
            self.wf(),
        ensures
            n == self@.dom().len(),
            (n == 0) == (self@ == Map::<Seq<char>, T>::empty()),
    {
        proof {
            self.lemma_domain();
            if self.keys@.len() == 0 {
                assert(self@ =~= Map::<Seq<char>, T>::empty());
            } else {
                self.lemma_entry(0);
            }
        }
        self.keys.len()
    }

    /// Whether the table has an entry for the address.
    pub fn contains_key(&self, address: &str) -> (found: bool)
        requires
            self.wf(),
        ensures
            found == self@.contains_key(address@),
    {
        match self.position(address) {
            Some(i) => {
                proof {
                    self.lemma_entry(i as int);
                }
                true
            },
            None => false,
        }
    }

    /// The record stored under the address.
    pub fn get(&self, address: &str) -> (record: Option<&T>)
        requires
            self.wf(),
        ensures
            match record {
                Some(r) => self@.contains_key(address@) && *r == self@[address@],
                None => !self@.contains_key(address@),
            },
    {
        match self.position(address) {
            Some(i) => {
                proof {
                    self.lemma_entry(i as int);
                }
                Some(&self.values[i])
            },
            None => None,
        }
    }

    /// The only entry, if the table holds exactly one.
    pub fn sole_entry(&self) -> (entry: Option<(&String, &T)>)
        requires
            self.wf(),
        ensures
            match entry {
                Some((address, record)) => self@.dom() == set![address@] && *record
                    == self@[address@],
                None => self@.dom().len() != 1,
            },
    {
        proof {
            self.lemma_domain();
        }
        if self.keys.len() == 1 {
            proof {
                let a = addresses(self.keys@);
                assert(a[0] == self.keys@[0]@);
                assert(a.contains(a[0]));
                assert(a.to_set() =~= set![a[0]]);
                self.lemma_entry(0);
            }
            Some((&self.keys[0], &self.values[0]))
        } else {
            None
        }
    }

    /// The addresses in the table, each once.
    pub fn keys(&self) -> (list: Vec<String>)
        requires
            self.wf(),
        ensures
            addresses(list@).no_duplicates(),
            addresses(list@).to_set() == self@.dom(),
    {
        let mut list: Vec<String> = Vec::new();
        let mut i: usize = 0;
        while i < self.keys.len()
            invariant
                i <= self.keys@.len(),
                list@.len() == i,
                forall|j: int| 0 <= j < i ==> list@[j] == self.keys@[j],
            decreases self.keys@.len() - i,
        {
            list.push(self.keys[i].clone());
            i += 1;
        }
        proof {
            self.lemma_domain();
            assert(list@ =~= self.keys@);
        }
        list
    }

    /// Adds an entry for an address that has none. A table that already holds
    /// the address is left as it is.
    pub fn insert(&mut self, address: String, record: T) -> (added: bool)
        requires
            old(self).wf(),
        ensures
            final(self).wf(),
            added == !old(self)@.contains_key(address@),
            final(self)@ == if added {
                old(self)@.insert(address@, record)
            } else {
                old(self)@
            },
    {
        if self.position(address.as_str()).is_some() {
            proof {
                let i = self.position_of(address@);
                self.lemma_entry(i);
            }
            return false;
        }
        let ghost before = *self;
        self.keys.push(address);
        self.values.push(record);
        proof {
            let a0 = addresses(before.keys@);
            let a1 = addresses(self.keys@);
            assert(a1 =~= a0.push(address@));
            assert(!a0.contains(address@));
            assert(a1.no_duplicates());
            assert forall|k: Seq<char>| #[trigger] a1.contains(k) <==> (k == address@
                || a0.contains(k)) by {
                if a0.contains(k) {
                    let j = a0.index_of(k);
                    assert(a1[j] == k);
                }
                assert(a1[a0.len() as int] == address@);
            }
            assert forall|k: Seq<char>| a1.contains(k) implies #[trigger] self@[k] == before@.insert(
                address@,
                record,
            )[k] by {
                let j = a1.index_of(k);
                if k != address@ {
                    assert(a0[j] == k);
                    assert(a0.index_of(k) == j);
                }
            }
            assert(self@ =~= before@.insert(address@, record));
        }
        true
    }

    /// Replaces the record of an address that has an entry. A table without
    /// the address is left as it is.
    pub fn set(&mut self, address: &str, record: T) -> (found: bool)
        requires
            old(self).wf(),
        ensures
            final(self).wf(),
            found == old(self)@.contains_key(address@),
            final(self)@ == if found {
                old(self)@.insert(address@, record)
            } else {
                old(self)@
            },
    {
        match self.position(address) {
            Some(i) => {
                let ghost before = *self;
                self.values.set(i, record);
                proof {
                    before.lemma_entry(i as int);
                    let a = addresses(self.keys@);
                    assert forall|k: Seq<char>| a.contains(k) implies #[trigger] self@[k]
                        == before@.insert(address@, record)[k] by {
                        let j = a.index_of(k);
                        assert(a[j] == k && a[i as int] == address@);
                    }
                    assert(self@ =~= before@.insert(address@, record));
                }
                true
            },
            None => false,
        }
    }

    /// Takes the entry of an address out of the table and returns its record.
    /// A table without the address is left as it is.
    pub fn remove(&mut self, address: &str) -> (record: Option<T>)
        requires
            old(self).wf(),
        ensures
            final(self).wf(),
            final(self)@ == old(self)@.remove(address@),
            match record {
                Some(r) => old(self)@.contains_key(address@) && r == old(self)@[address@],
                None => !old(self)@.contains_key(address@),
            },
    {
        match self.position(address) {
            Some(i) => {
                let ghost before = *self;
                self.keys.remove(i);
                let record = self.values.remove(i);
                proof {
                    before.lemma_entry(i as int);
                    let a0 = addresses(before.keys@);
                    let a1 = addresses(self.keys@);
                    assert(a1 =~= a0.remove(i as int));
                    assert forall|x: int, y: int|
                        0 <= x < a1.len() && 0 <= y < a1.len() && x != y implies a1[x] != a1[y] by {
                        let x0 = if x < i { x } else { x + 1 };
                        let y0 = if y < i { y } else { y + 1 };
                        assert(a1[x] == a0[x0] && a1[y] == a0[y0]);
                    }
                    assert forall|k: Seq<char>| #[trigger] a1.contains(k) <==> (k != address@
                        && a0.contains(k)) by {
                        assert(a0[i as int] == address@);
                        if a1.contains(k) {
                            let j = a1.index_of(k);
                            let j0 = if j < i { j } else { j + 1 };
                            assert(a0[j0] == k && j0 != i);
                            assert(a0.contains(k));
                        }
                        if k != address@ && a0.contains(k) {
                            let j0 = a0.index_of(k);
                            let j = if j0 < i { j0 } else { j0 - 1 };
                            assert(a1[j] == k);
                        }
                    }
                    assert forall|k: Seq<char>| a1.contains(k) implies #[trigger] self@[k]
                        == before@[k] by {
                        let j = a1.index_of(k);
                        let j0 = if j < i { j } else { j + 1 };
                        assert(a0[j0] == k);
                        assert(a0.index_of(k) == j0);
                    }
                    assert(self@ =~= before@.remove(address@));
                }
                Some(record)
            },
            None => {
                assert(self@ =~= self@.remove(address@));
                None
            },
        }
    }

    /// The position at which an address stands among the keys.
    spec fn position_of(&self, address: Seq<char>) -> int {
        choose|i: int| 0 <= i < self.keys@.len() && self.keys@[i]@ == address
    }
}

} // verus!
