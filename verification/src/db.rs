//! The store's table: keys that are text, each bound to a byte value.

use vstd::prelude::*;

use crate::buf::{bytes_clone, bytes_view};

verus! {

/// The key-value table. Each key occurs at most once; `keys[i]` is bound to
/// `values[i]`.
#[derive(Debug)]
pub struct Db {
    keys: Vec<String>,
    values: Vec<bytes::Bytes>,
}

impl View for Db {
    type V = Map<Seq<char>, Seq<u8>>;

    /// The table as a map from key text to value bytes.
    closed spec fn view(&self) -> Map<Seq<char>, Seq<u8>> {
        Map::new(|k: Seq<char>| self.has_key(k), |k: Seq<char>| bytes_view(self.values@[self.slot_of(k)]))
    }
}

impl Db {
    /// The table is well formed: as many values as keys, and no key twice.
    pub closed spec fn wf(&self) -> bool {
        &&& self.keys@.len() == self.values@.len()
        &&& forall|i: int, j: int|
            0 <= i < self.keys@.len() && 0 <= j < self.keys@.len() && i != j
                ==> #[trigger] self.keys@[i]@ != #[trigger] self.keys@[j]@
    }

    /// Whether the key `k` is bound.
    closed spec fn has_key(&self, k: Seq<char>) -> bool {
        exists|i: int| 0 <= i < self.keys@.len() && #[trigger] self.keys@[i]@ == k
    }

    /// Where the key `k` is bound.
    closed spec fn slot_of(&self, k: Seq<char>) -> int {
        choose|i: int| 0 <= i < self.keys@.len() && #[trigger] self.keys@[i]@ == k
    }


    /// In a well-formed table, a key found at slot `i` is bound to the value at `i`.
    proof fn lemma_slot(&self, i: int)
        requires
            self.wf(),
            0 <= i < self.keys@.len(),
        ensures
            self.view().contains_key(self.keys@[i]@),
            self.view()[self.keys@[i]@] == bytes_view(self.values@[i]),
    {
        let k = self.keys@[i]@;
        assert(self.has_key(k));
        let j = self.slot_of(k);
        assert(self.keys@[j]@ == k);
    }

    /// An empty table.
    pub fn new() -> (db: Self)
        ensures
            db.wf(),
            db.view() == Map::<Seq<char>, Seq<u8>>::empty(),
    {
        let db = Db { keys: Vec::new(), values: Vec::new() };
        assert(db.view() =~= Map::<Seq<char>, Seq<u8>>::empty());
        db
    }

    /// The slot of `key`, if it is bound.
    fn find(&self, key: &String) -> (r: Option<usize>)
        requires
            self.wf(),
        ensures
            match r {
                Some(i) => i < self.keys@.len() && self.keys@[i as int]@ == key@,
                None => !self.has_key(key@),
            },
    {
        let mut i: usize = 0;
        while i < self.keys.len()
            invariant
                i <= self.keys@.len(),
                forall|j: int| 0 <= j < i ==> self.keys@[j]@ != key@,
            decreases self.keys@.len() - i,
        {
            if self.keys[i] == *key {
                return Some(i);
            }
            i = i + 1;
        }
        None
    }

    /// The value bound to `k`, if any.
    pub fn get(&self, k: &str) -> (r: Option<bytes::Bytes>)
        requires
            self.wf(),
        ensures
            match r {
                Some(v) => self.view().contains_key(k@) && bytes_view(v) == self.view()[k@],
                None => !self.view().contains_key(k@),
            },
    {
        let key = k.to_owned();
        match self.find(&key) {
            Some(i) => {
                proof {
                    self.lemma_slot(i as int);
                }
                Some(bytes_clone(&self.values[i]))
            },
            None => None,
        }
    }

    /// Binds `k` to `v`, replacing what `k` was bound to.
    pub fn set(&mut self, k: String, v: bytes::Bytes)
        requires
            old(self).wf(),
        ensures
            final(self).wf(),
            final(self).view() == old(self).view().insert(k@, bytes_view(v)),
    {
        let ghost old_view = self.view();
        match self.find(&k) {
            Some(i) => {
                let ghost vb = bytes_view(v);
                self.values.set(i, v);
                proof {
                    assert forall|key: Seq<char>| #[trigger]
                        self.view().contains_key(key) == old_view.insert(
                            k@,
                            vb,
                        ).contains_key(key) by {}
                    assert forall|key: Seq<char>| self.view().contains_key(key) implies #[trigger] self.view()[key]
                        == old_view.insert(k@, vb)[key] by {
                        let j = self.slot_of(key);
                        assert(self.keys@[j]@ == key);
                        self.lemma_slot(j);
                        if key != k@ {
                            old(self).lemma_slot(j);
                        }
                    }
                    assert(self.view() =~= old_view.insert(k@, vb));
                }
            },
            None => {
                let ghost vb = bytes_view(v);
                let ghost kv = k@;
                self.keys.push(k);
                self.values.push(v);
                proof {
                    let n = self.keys@.len() - 1;
                    assert(self.keys@[n]@ == kv);
                    assert forall|key: Seq<char>| #[trigger]
                        self.view().contains_key(key) == old_view.insert(kv, vb).contains_key(
                            key,
                        ) by {
                        if old(self).has_key(key) {
                            let j = old(self).slot_of(key);
                            assert(self.keys@[j]@ == key);
                        }
                        if self.has_key(key) && key != kv {
                            let j = self.slot_of(key);
                            assert(old(self).keys@[j]@ == key);
                        }
                    }
                    assert forall|key: Seq<char>| self.view().contains_key(key) implies #[trigger] self.view()[key]
                        == old_view.insert(kv, vb)[key] by {
                        let j = self.slot_of(key);
                        assert(self.keys@[j]@ == key);
                        self.lemma_slot(j);
                        if key != kv {
                            old(self).lemma_slot(j);
                        }
                    }
                    assert(self.view() =~= old_view.insert(kv, vb));
                }
            },
        }
    }

    /// Unbinds `k`; `Some(())` when it was bound, `None` when it was not.
    pub fn del(&mut self, k: String) -> (r: Option<()>)
        requires
            old(self).wf(),
        ensures
            final(self).wf(),
            final(self).view() == old(self).view().remove(k@),
            r is Some <==> old(self).view().contains_key(k@),
    {
        let ghost old_view = self.view();
        match self.find(&k) {
            Some(i) => {
                let ghost kv = k@;
                self.keys.remove(i);
                self.values.remove(i);
                proof {
                    assert forall|a: int, b: int|
                        0 <= a < self.keys@.len() && 0 <= b < self.keys@.len() && a != b
                            implies #[trigger] self.keys@[a]@ != #[trigger] self.keys@[b]@ by {
                        let oa = if a < i { a } else { a + 1 };
                        let ob = if b < i { b } else { b + 1 };
                        assert(self.keys@[a] == old(self).keys@[oa]);
                        assert(self.keys@[b] == old(self).keys@[ob]);
                    }
                    assert forall|key: Seq<char>| #[trigger]
                        self.view().contains_key(key) == old_view.remove(kv).contains_key(key) by {
                        if old(self).has_key(key) && key != kv {
                            let j = old(self).slot_of(key);
                            assert(old(self).keys@[j]@ == key);
                            assert(j != i);
                            let nj = if j < i { j } else { j - 1 };
                            assert(self.keys@[nj]@ == key);
                        }
                        if self.has_key(key) {
                            let j = self.slot_of(key);
                            let oj = if j < i { j } else { j + 1 };
                            assert(old(self).keys@[oj]@ == key);
                        }
                    }
                    assert forall|key: Seq<char>| self.view().contains_key(key) implies #[trigger] self.view()[key]
                        == old_view.remove(kv)[key] by {
                        let j = self.slot_of(key);
                        assert(self.keys@[j]@ == key);
                        self.lemma_slot(j);
                        let oj = if j < i { j } else { j + 1 };
                        assert(old(self).keys@[oj]@ == key);
                        old(self).lemma_slot(oj);
                    }
                    assert(self.view() =~= old_view.remove(kv));
                    old(self).lemma_slot(i as int);
                }
                Some(())
            },
            None => {
                assert(self.view() =~= old_view.remove(k@));
                None
            },
        }
    }
}

} // verus!
