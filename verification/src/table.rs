//! A table of records keyed by a 32-byte hash, with at most one record per key.

use vstd::prelude::*;

verus! {

/// Whether two 32-byte hashes are equal.
pub fn hash_eq(a: &[u8; 32], b: &[u8; 32]) -> (r: bool)
    ensures
        r == (a@ == b@),
{
    let mut i: usize = 0;
    while i < 32
        invariant
            i <= 32,
            a@.len() == 32,
            b@.len() == 32,
            forall|j: int| 0 <= j < i ==> a@[j] == b@[j],
        decreases 32 - i,
    {
        if a[i] != b[i] {
            return false;
        }
        i += 1;
    }
    assert(a@ =~= b@);
    true
}

/// A record stored under a 32-byte hash.
pub trait Keyed: View + Sized {
    /// The key of a record, from its view.
    spec fn key_of(v: Self::V) -> Seq<u8>;

    /// The key of this record.
    fn key(&self) -> (k: [u8; 32])
        ensures
            k@ == Self::key_of(self@),
    ;

    /// A copy of this record.
    fn duplicate(&self) -> (r: Self)
        ensures
            r@ == self@,
    ;
}

/// Records with pairwise distinct keys.
///
/// The records sit in a `Vec` rather than a `HashMap`: vstd states what a
/// `HashMap` lookup returns only for key types with a known key model
/// (integers, `bool` and boxes of them), and a 32-byte hash is not one of
/// them, so no contract over such a map could be proved.
#[derive(Debug)]
pub struct Table<R: Keyed> {
    rows: Vec<R>,
}

impl<R: Keyed> Table<R> {
    /// No two records share a key; every table keeps this.
    #[verifier::type_invariant]
    spec fn wf(&self) -> bool {
        forall|i: int, j: int|
            0 <= i < j < self.rows@.len() ==> R::key_of(#[trigger] self.rows@[i]@) != R::key_of(
                #[trigger] self.rows@[j]@,
            )
    }

    /// Whether some record has key `k`.
    pub closed spec fn has_key(&self, k: Seq<u8>) -> bool {
        exists|i: int| 0 <= i < self.rows@.len() && R::key_of(#[trigger] self.rows@[i]@) == k
    }

    /// The records, by key.
    pub closed spec fn contents(&self) -> Map<Seq<u8>, R::V> {
        Map::new(
            |k: Seq<u8>| self.has_key(k),
            |k: Seq<u8>|
                self.rows@[choose|i: int|
                    0 <= i < self.rows@.len() && R::key_of(#[trigger] self.rows@[i]@) == k]@,
        )
    }

    /// The number of records.
    pub closed spec fn size(&self) -> nat {
        self.rows@.len()
    }

    proof fn lemma_row_in_contents(&self, i: int)
        requires
            self.wf(),
            0 <= i < self.rows@.len(),
        ensures
            self.contents().contains_key(R::key_of(self.rows@[i]@)),
            self.contents()[R::key_of(self.rows@[i]@)] == self.rows@[i]@,
    {
        let k = R::key_of(self.rows@[i]@);
        assert(self.has_key(k));
        let j = choose|j: int| 0 <= j < self.rows@.len() && R::key_of(#[trigger] self.rows@[j]@) == k;
        if j < i {
            assert(R::key_of(self.rows@[j]@) != R::key_of(self.rows@[i]@));
        } else if i < j {
            assert(R::key_of(self.rows@[i]@) != R::key_of(self.rows@[j]@));
        }
    }

    /// An empty table.
    pub fn new() -> (t: Self)
        ensures
            t.contents() == Map::<Seq<u8>, R::V>::empty(),
            t.size() == 0,
    {
        let t = Table { rows: Vec::new() };
        assert(t.contents() =~= Map::<Seq<u8>, R::V>::empty());
        t
    }

    /// The position of the record with key `key`.
    fn find(&self, key: &[u8; 32]) -> (r: Option<usize>)
        requires
            self.wf(),
        ensures
            match r {
                Some(i) => i < self.rows@.len() && R::key_of(self.rows@[i as int]@) == key@,
                None => !self.has_key(key@),
            },
    {
        let mut i: usize = 0;
        while i < self.rows.len()
            invariant
                i <= self.rows@.len(),
                forall|j: int| 0 <= j < i ==> R::key_of(#[trigger] self.rows@[j]@) != key@,
            decreases self.rows@.len() - i,
        {
            let k = self.rows[i].key();
            if hash_eq(&k, key) {
                return Some(i);
            }
            i += 1;
        }
        None
    }

    /// Stores `row` under its key, replacing the record that had that key.
    pub fn insert(&mut self, row: R)
        ensures
            final(self).contents() == old(self).contents().insert(R::key_of(row@), row@),
    {
        proof {
            use_type_invariant(&*self);
        }
        let ghost k = R::key_of(row@);
        let key = row.key();
        let ghost before = *self;
        let found = self.find(&key);
        let mut rows: Vec<R> = Vec::new();
        std::mem::swap(&mut rows, &mut self.rows);
        match found {
            Some(i) => {
                rows.set(i, row);
                proof {
                    assert forall|a: int, b: int|
                        0 <= a < b < rows@.len() implies R::key_of(#[trigger] rows@[a]@)
                        != R::key_of(#[trigger] rows@[b]@) by {
                        assert(R::key_of(before.rows@[a]@) != R::key_of(before.rows@[b]@));
                    }
                }
                self.rows = rows;
                proof {
                    self.lemma_contents_after_set(before, i as int, k);
                }
            },
            None => {
                rows.push(row);
                proof {
                    assert forall|a: int, b: int|
                        0 <= a < b < rows@.len() implies R::key_of(#[trigger] rows@[a]@)
                        != R::key_of(#[trigger] rows@[b]@) by {
                        if b < before.rows@.len() {
                            assert(R::key_of(before.rows@[a]@) != R::key_of(before.rows@[b]@));
                        } else {
                            assert(rows@[a] == before.rows@[a]);
                        }
                    }
                    assert(rows@.drop_last() =~= before.rows@);
                }
                self.rows = rows;
                proof {
                    self.lemma_contents_after_push(before, k);
                }
            },
        }
    }

    proof fn lemma_contents_after_set(&self, before: Self, i: int, k: Seq<u8>)
        requires
            before.wf(),
            self.wf(),
            0 <= i < before.rows@.len(),
            R::key_of(before.rows@[i]@) == k,
            R::key_of(self.rows@[i]@) == k,
            self.rows@ == before.rows@.update(i, self.rows@[i]),
        ensures
            self.contents() == before.contents().insert(k, self.rows@[i]@),
    {
        let m = before.contents().insert(k, self.rows@[i]@);
        assert forall|key: Seq<u8>| self.has_key(key) <==> m.contains_key(key) by {
            if self.has_key(key) {
                let j = choose|j: int| 0 <= j < self.rows@.len() && R::key_of(#[trigger] self.rows@[j]@) == key;
                if j != i {
                    assert(before.rows@[j] == self.rows@[j]);
                    assert(before.has_key(key));
                }
            }
            if m.contains_key(key) && key != k {
                let j = choose|j: int| 0 <= j < before.rows@.len() && R::key_of(#[trigger] before.rows@[j]@) == key;
                assert(self.rows@[j] == before.rows@[j]);
                assert(self.has_key(key));
            }
            if key == k {
                assert(R::key_of(self.rows@[i]@) == key);
            }
        }
        assert forall|key: Seq<u8>| #[trigger] self.contents().contains_key(key) implies self.contents()[key] == m[key] by {
            let j = choose|j: int| 0 <= j < self.rows@.len() && R::key_of(#[trigger] self.rows@[j]@) == key;
            self.lemma_row_in_contents(j);
            if j != i {
                assert(before.rows@[j] == self.rows@[j]);
                before.lemma_row_in_contents(j);
            }
        }
        assert(self.contents() =~= m);
    }

    proof fn lemma_contents_after_push(&self, before: Self, k: Seq<u8>)
        requires
            before.wf(),
            self.wf(),
            !before.has_key(k),
            self.rows@.len() == before.rows@.len() + 1,
            self.rows@.drop_last() == before.rows@,
            R::key_of(self.rows@.last()@) == k,
        ensures
            self.contents() == before.contents().insert(k, self.rows@.last()@),
    {
        let n = before.rows@.len() as int;
        let m = before.contents().insert(k, self.rows@.last()@);
        assert forall|j: int| 0 <= j < n implies #[trigger] self.rows@[j] == before.rows@[j] by {
            assert(self.rows@.drop_last()[j] == self.rows@[j]);
        }
        assert forall|key: Seq<u8>| self.has_key(key) <==> m.contains_key(key) by {
            if self.has_key(key) {
                let j = choose|j: int| 0 <= j < self.rows@.len() && R::key_of(#[trigger] self.rows@[j]@) == key;
                if j < n {
                    assert(before.has_key(key));
                }
            }
            if m.contains_key(key) && key != k {
                let j = choose|j: int| 0 <= j < before.rows@.len() && R::key_of(#[trigger] before.rows@[j]@) == key;
                assert(self.rows@[j] == before.rows@[j]);
                assert(self.has_key(key));
            }
            if key == k {
                assert(R::key_of(self.rows@[n]@) == key);
            }
        }
        assert forall|key: Seq<u8>| #[trigger] self.contents().contains_key(key) implies self.contents()[key] == m[key] by {
            let j = choose|j: int| 0 <= j < self.rows@.len() && R::key_of(#[trigger] self.rows@[j]@) == key;
            self.lemma_row_in_contents(j);
            if j < n {
                before.lemma_row_in_contents(j);
            }
        }
        assert(self.contents() =~= m);
    }

    /// Replaces the record with the key of `row`, when there is one;
    /// otherwise the table is left as it was.
    pub fn replace_existing(&mut self, row: R)
        ensures
            old(self).contents().contains_key(R::key_of(row@)) ==> final(self).contents()
                == old(self).contents().insert(R::key_of(row@), row@),
            !old(self).contents().contains_key(R::key_of(row@)) ==> final(self).contents()
                == old(self).contents(),
    {
        proof {
            use_type_invariant(&*self);
        }
        let ghost k = R::key_of(row@);
        let key = row.key();
        let ghost before = *self;
        match self.find(&key) {
            Some(i) => {
                let mut rows: Vec<R> = Vec::new();
                std::mem::swap(&mut rows, &mut self.rows);
                rows.set(i, row);
                proof {
                    assert forall|a: int, b: int|
                        0 <= a < b < rows@.len() implies R::key_of(#[trigger] rows@[a]@)
                        != R::key_of(#[trigger] rows@[b]@) by {
                        assert(R::key_of(before.rows@[a]@) != R::key_of(before.rows@[b]@));
                    }
                }
                self.rows = rows;
                proof {
                    self.lemma_contents_after_set(before, i as int, k);
                }
            },
            None => {},
        }
    }

    /// A copy of the record with key `key`.
    pub fn get(&self, key: &[u8; 32]) -> (r: Option<R>)
        ensures
            match r {
                Some(row) => self.contents().contains_key(key@) && row@ == self.contents()[key@],
                None => !self.contents().contains_key(key@),
            },
    {
        proof {
            use_type_invariant(self);
        }
        match self.find(key) {
            Some(i) => {
                proof {
                    self.lemma_row_in_contents(i as int);
                }
                Some(self.rows[i].duplicate())
            },
            None => None,
        }
    }

    /// Copies of all records, each once.
    pub fn values(&self) -> (r: Vec<R>)
        ensures
            r@.len() == self.size(),
            forall|i: int|
                0 <= i < r@.len() ==> self.contents().contains_key(R::key_of(#[trigger] r@[i]@))
                    && self.contents()[R::key_of(r@[i]@)] == r@[i]@,
            forall|i: int, j: int|
                0 <= i < j < r@.len() ==> R::key_of(#[trigger] r@[i]@) != R::key_of(
                    #[trigger] r@[j]@,
                ),
            forall|k: Seq<u8>|
                #[trigger] self.contents().contains_key(k) ==> exists|i: int|
                    0 <= i < r@.len() && R::key_of(#[trigger] r@[i]@) == k,
    {
        proof {
            use_type_invariant(self);
        }
        let mut out: Vec<R> = Vec::new();
        let mut i: usize = 0;
        while i < self.rows.len()
            invariant
                self.wf(),
                i <= self.rows@.len(),
                out@.len() == i,
                forall|j: int| 0 <= j < i ==> (#[trigger] out@[j])@ == self.rows@[j]@,
            decreases self.rows@.len() - i,
        {
            out.push(self.rows[i].duplicate());
            i += 1;
        }
        proof {
            assert forall|j: int| 0 <= j < out@.len() implies self.contents().contains_key(
                R::key_of(#[trigger] out@[j]@),
            ) && self.contents()[R::key_of(out@[j]@)] == out@[j]@ by {
                self.lemma_row_in_contents(j);
            }
            assert forall|a: int, b: int| 0 <= a < b < out@.len() implies R::key_of(
                #[trigger] out@[a]@,
            ) != R::key_of(#[trigger] out@[b]@) by {
                assert(R::key_of(self.rows@[a]@) != R::key_of(self.rows@[b]@));
            }
            assert forall|k: Seq<u8>| #[trigger] self.contents().contains_key(k) implies exists|
                j: int,
            | 0 <= j < out@.len() && R::key_of(#[trigger] out@[j]@) == k by {
                let j = choose|j: int| 0 <= j < self.rows@.len() && R::key_of(#[trigger] self.rows@[j]@) == k;
                assert(out@[j]@ == self.rows@[j]@);
            }
        }
        out
    }

    /// The keys of all records, each once.
    pub fn keys(&self) -> (r: Vec<[u8; 32]>)
        ensures
            r@.len() == self.size(),
            forall|i: int| 0 <= i < r@.len() ==> self.contents().contains_key(#[trigger] r@[i]@),
            forall|i: int, j: int| 0 <= i < j < r@.len() ==> (#[trigger] r@[i])@ != (#[trigger] r@[j])@,
            forall|k: Seq<u8>|
                #[trigger] self.contents().contains_key(k) ==> exists|i: int|
                    0 <= i < r@.len() && (#[trigger] r@[i])@ == k,
    {
        proof {
            use_type_invariant(self);
        }
        let mut out: Vec<[u8; 32]> = Vec::new();
        let mut i: usize = 0;
        while i < self.rows.len()
            invariant
                self.wf(),
                i <= self.rows@.len(),
                out@.len() == i,
                forall|j: int| 0 <= j < i ==> (#[trigger] out@[j])@ == R::key_of(self.rows@[j]@),
            decreases self.rows@.len() - i,
        {
            out.push(self.rows[i].key());
            i += 1;
        }
        proof {
            assert forall|j: int| 0 <= j < out@.len() implies self.contents().contains_key(
                #[trigger] out@[j]@,
            ) by {
                self.lemma_row_in_contents(j);
            }
            assert forall|a: int, b: int| 0 <= a < b < out@.len() implies (#[trigger] out@[a])@ != (
            #[trigger] out@[b])@ by {
                assert(R::key_of(self.rows@[a]@) != R::key_of(self.rows@[b]@));
            }
            assert forall|k: Seq<u8>| #[trigger] self.contents().contains_key(k) implies exists|
                j: int,
            | 0 <= j < out@.len() && (#[trigger] out@[j])@ == k by {
                let j = choose|j: int| 0 <= j < self.rows@.len() && R::key_of(#[trigger] self.rows@[j]@) == k;
                assert(out@[j]@ == R::key_of(self.rows@[j]@));
            }
        }
        out
    }
}

} // verus!
