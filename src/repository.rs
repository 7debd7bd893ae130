//! The storage contract the use cases depend on, and an in-memory store that
//! meets it.
//!
//! A store is seen as a map from keys to entities. The contract says what a
//! successful call returns or does to that map; a failed call (a
//! `StorageError`) promises nothing, since the storage behind an adapter may
//! have failed midway.
use vstd::prelude::*;

use crate::errors::StorageError;

verus! {

/// An entity with a key that identifies it within its store.
pub trait Keyed<K>: Sized {
    spec fn key_of(&self) -> K;

    fn key(&self) -> (r: K)
        ensures
            r == self.key_of(),
    ;

    fn has_key(&self, k: &K) -> (r: bool)
        ensures
            r == (self.key_of() == *k),
    ;

    /// An identical copy of the entity.
    fn duplicate(&self) -> (r: Self)
        ensures
            r == *self,
    ;
}

/// The entity stored under `k`, if any.
pub open spec fn lookup<K, E>(rows: Map<K, E>, k: K) -> Option<E> {
    if rows.dom().contains(k) {
        Some(rows[k])
    } else {
        None
    }
}

/// What every storage adapter provides: find by key, upsert, delete.
pub trait Repository<K, E: Keyed<K>>: Sized {
    /// The entities held, by key.
    spec fn rows(&self) -> Map<K, E>;

    fn find_by_id(&self, id: K) -> (r: Result<Option<E>, StorageError>)
        ensures
            r is Ok ==> r->Ok_0 == lookup(self.rows(), id),
            r is Ok && r->Ok_0 is Some ==> r->Ok_0->Some_0.key_of() == id,
    ;

    /// Creates the entity if its key is new, replaces the stored one otherwise.
    fn save(&mut self, entity: E) -> (r: Result<E, StorageError>)
        ensures
            r is Ok ==> r->Ok_0 == entity && final(self).rows() == old(self).rows().insert(
                entity.key_of(),
                entity,
            ),
    ;

    /// Removes whatever is stored under the entity's key.
    fn delete(&mut self, entity: E) -> (r: Result<(), StorageError>)
        ensures
            r is Ok ==> final(self).rows() == old(self).rows().remove(entity.key_of()),
    ;
}

/// No two entries share a key.
pub open spec fn keys_unique<K, E: Keyed<K>>(s: Seq<E>) -> bool {
    forall|i: int, j: int|
        0 <= i < s.len() && 0 <= j < s.len() && #[trigger] s[i].key_of() == #[trigger] s[j].key_of()
            ==> i == j
}

/// Whether some entry of `s` has key `k`.
pub open spec fn holds_key<K, E: Keyed<K>>(s: Seq<E>, k: K) -> bool {
    exists|i: int| 0 <= i < s.len() && #[trigger] s[i].key_of() == k
}

/// The map from keys to entries of a sequence whose keys are unique.
pub open spec fn rows_of<K, E: Keyed<K>>(s: Seq<E>) -> Map<K, E> {
    Map::new(
        |k: K| holds_key(s, k),
        |k: K| s[choose|i: int| 0 <= i < s.len() && #[trigger] s[i].key_of() == k],
    )
}

proof fn lemma_rows_at<K, E: Keyed<K>>(s: Seq<E>, i: int)
    requires
        keys_unique(s),
        0 <= i < s.len(),
    ensures
        rows_of(s).dom().contains(s[i].key_of()),
        rows_of(s)[s[i].key_of()] == s[i],
{
    let k = s[i].key_of();
    assert(holds_key(s, k));
    let j = choose|j: int| 0 <= j < s.len() && #[trigger] s[j].key_of() == k;
    assert(s[j].key_of() == s[i].key_of());
}

proof fn lemma_rows_absent<K, E: Keyed<K>>(s: Seq<E>, k: K)
    requires
        forall|i: int| 0 <= i < s.len() ==> #[trigger] s[i].key_of() != k,
    ensures
        !rows_of(s).dom().contains(k),
{
}

/// With unique keys, a sequence holds as many entries as its map has keys.
proof fn lemma_rows_count<K, E: Keyed<K>>(s: Seq<E>)
    requires
        keys_unique(s),
    ensures
        rows_of(s).dom().len() == s.len(),
{
    let keys = s.map_values(|e: E| e.key_of());
    assert(keys.no_duplicates()) by {
        assert forall|i: int, j: int| 0 <= i < keys.len() && 0 <= j < keys.len() && i != j implies keys[i]
            != keys[j] by {
            assert(keys[i] == s[i].key_of());
            assert(keys[j] == s[j].key_of());
        }
    }
    keys.unique_seq_to_set();
    assert(rows_of(s).dom() =~= keys.to_set()) by {
        assert forall|k: K| #[trigger] rows_of(s).dom().contains(k) <==> keys.to_set().contains(k) by {
            if holds_key(s, k) {
                let i = choose|i: int| 0 <= i < s.len() && #[trigger] s[i].key_of() == k;
                assert(keys[i] == k);
            }
            if keys.contains(k) {
                let i = choose|i: int| 0 <= i < keys.len() && keys[i] == k;
                assert(s[i].key_of() == k);
            }
        }
    }
}

/// A store kept in memory, for tests and local runs. It can be switched to
/// unavailable, in which case every call fails as a broken connection would.
pub struct MemoryRepository<K, E: Keyed<K>> {
    items: Vec<E>,
    available: bool,
    key: core::marker::PhantomData<K>,
}

impl<K, E: Keyed<K>> MemoryRepository<K, E> {
    #[verifier::type_invariant]
    spec fn inv(&self) -> bool {
        keys_unique(self.items@)
    }

    /// The number of stored entities.
    pub closed spec fn size(&self) -> nat {
        self.items@.len()
    }

    /// Whether calls currently succeed.
    pub closed spec fn is_available(&self) -> bool {
        self.available
    }

    /// The stored entities, by key.
    pub closed spec fn contents(&self) -> Map<K, E> {
        rows_of(self.items@)
    }

    /// An empty, available store.
    pub fn new() -> (r: Self)
        ensures
            r.contents() == Map::<K, E>::empty(),
            r.size() == 0,
            r.is_available(),
    {
        let r = MemoryRepository { items: Vec::new(), available: true, key: core::marker::PhantomData };
        assert(r.contents() =~= Map::<K, E>::empty());
        r
    }

    /// The number of stored entities.
    pub fn len(&self) -> (r: usize)
        ensures
            r == self.size(),
            r == self.contents().dom().len(),
    {
        proof {
            use_type_invariant(self);
            lemma_rows_count(self.items@);
        }
        self.items.len()
    }

    /// Makes every later call succeed (`true`) or fail (`false`).
    pub fn set_available(&mut self, available: bool)
        ensures
            final(self).contents() == old(self).contents(),
            final(self).size() == old(self).size(),
            final(self).is_available() == available,
    {
        proof {
            use_type_invariant(&*self);
        }
        self.available = available;
    }

    /// A copy of the entries at positions `lo` up to `hi`.
    fn copy_range(&self, lo: usize, hi: usize) -> (r: Vec<E>)
        requires
            lo <= hi <= self.items@.len(),
        ensures
            r@ == self.items@.subrange(lo as int, hi as int),
    {
        let mut out: Vec<E> = Vec::new();
        let mut j: usize = lo;
        while j < hi
            invariant
                lo <= j <= hi,
                hi <= self.items@.len(),
                out@ == self.items@.subrange(lo as int, j as int),
            decreases hi - j,
        {
            out.push(self.items[j].duplicate());
            assert(out@ =~= self.items@.subrange(lo as int, j + 1));
            j = j + 1;
        }
        out
    }

    /// The position of the entry with key `k`, if any.
    fn position(&self, k: &K) -> (r: Option<usize>)
        ensures
            match r {
                Some(i) => i < self.items@.len() && self.items@[i as int].key_of() == *k,
                None => forall|i: int| 0 <= i < self.items@.len() ==> #[trigger] self.items@[i].key_of() != *k,
            },
    {
        let mut i: usize = 0;
        while i < self.items.len()
            invariant
                0 <= i <= self.items@.len(),
                forall|j: int| 0 <= j < i ==> #[trigger] self.items@[j].key_of() != *k,
            decreases self.items@.len() - i,
        {
            if self.items[i].has_key(k) {
                return Some(i);
            }
            i = i + 1;
        }
        None
    }
}

impl<K, E: Keyed<K>> Repository<K, E> for MemoryRepository<K, E> {
    open spec fn rows(&self) -> Map<K, E> {
        self.contents()
    }

    fn find_by_id(&self, id: K) -> (r: Result<Option<E>, StorageError>) {
        proof {
            use_type_invariant(self);
        }
        if !self.available {
            return Err(StorageError { detail: "store unavailable".to_owned() });
        }
        match self.position(&id) {
            Some(i) => {
                proof {
                    lemma_rows_at(self.items@, i as int);
                }
                Ok(Some(self.items[i].duplicate()))
            },
            None => {
                proof {
                    lemma_rows_absent(self.items@, id);
                }
                Ok(None)
            },
        }
    }

    fn save(&mut self, entity: E) -> (r: Result<E, StorageError>) {
        proof {
            use_type_invariant(&*self);
        }
        if !self.available {
            return Err(StorageError { detail: "store unavailable".to_owned() });
        }
        let ghost before = self.items@;
        let ghost k = entity.key_of();
        let stored = entity.duplicate();
        match self.position(&entity.key()) {
            Some(i) => {
                let mut next = self.copy_range(0, i);
                next.push(stored);
                let n = self.items.len();
                let mut rest = self.copy_range(i + 1, n);
                next.append(&mut rest);
                assert(next@ =~= before.update(i as int, entity));
                let ghost after = next@;
                assert(after == before.update(i as int, entity));
                assert(keys_unique(after)) by {
                    assert forall|a: int, b: int|
                        0 <= a < after.len() && 0 <= b < after.len() && #[trigger] after[a].key_of()
                            == #[trigger] after[b].key_of() implies a == b by {
                        if a != i && b != i {
                            assert(before[a].key_of() == before[b].key_of());
                        } else if a == i && b != i {
                            assert(before[b].key_of() == before[i as int].key_of());
                        } else if b == i && a != i {
                            assert(before[a].key_of() == before[i as int].key_of());
                        }
                    }
                }
                assert(rows_of(after) =~= rows_of(before).insert(k, entity)) by {
                    assert forall|x: K| #[trigger] rows_of(after).dom().contains(x) <==> rows_of(before).insert(
                        k,
                        entity,
                    ).dom().contains(x) by {
                        if holds_key(after, x) {
                            let j = choose|j: int| 0 <= j < after.len() && #[trigger] after[j].key_of() == x;
                            if j != i {
                                assert(before[j].key_of() == x);
                            }
                        }
                        if x != k && holds_key(before, x) {
                            let j = choose|j: int| 0 <= j < before.len() && #[trigger] before[j].key_of() == x;
                            assert(after[j].key_of() == x);
                        }
                        if x == k {
                            assert(after[i as int].key_of() == x);
                        }
                    }
                    assert forall|x: K| #[trigger] rows_of(after).dom().contains(x) implies rows_of(after)[x]
                        == rows_of(before).insert(k, entity)[x] by {
                        let j = choose|j: int| 0 <= j < after.len() && #[trigger] after[j].key_of() == x;
                        lemma_rows_at(after, j);
                        if j != i {
                            lemma_rows_at(before, j);
                        }
                    }
                }
                self.items = next;
            },
            None => {
                let mut next = self.copy_range(0, self.items.len());
                next.push(stored);
                assert(next@ =~= before.push(entity));
                let ghost after = next@;
                assert(keys_unique(after)) by {
                    assert forall|a: int, b: int|
                        0 <= a < after.len() && 0 <= b < after.len() && #[trigger] after[a].key_of()
                            == #[trigger] after[b].key_of() implies a == b by {
                        if a < before.len() && b < before.len() {
                            assert(before[a].key_of() == before[b].key_of());
                        } else if a < before.len() {
                            assert(before[a].key_of() == k);
                        } else if b < before.len() {
                            assert(before[b].key_of() == k);
                        }
                    }
                }
                assert(rows_of(after) =~= rows_of(before).insert(k, entity)) by {
                    assert forall|x: K| #[trigger] rows_of(after).dom().contains(x) <==> rows_of(before).insert(
                        k,
                        entity,
                    ).dom().contains(x) by {
                        if holds_key(after, x) {
                            let j = choose|j: int| 0 <= j < after.len() && #[trigger] after[j].key_of() == x;
                            if j < before.len() {
                                assert(before[j].key_of() == x);
                            }
                        }
                        if holds_key(before, x) {
                            let j = choose|j: int| 0 <= j < before.len() && #[trigger] before[j].key_of() == x;
                            assert(after[j].key_of() == x);
                        }
                        if x == k {
                            assert(after[before.len() as int].key_of() == x);
                        }
                    }
                    assert forall|x: K| #[trigger] rows_of(after).dom().contains(x) implies rows_of(after)[x]
                        == rows_of(before).insert(k, entity)[x] by {
                        let j = choose|j: int| 0 <= j < after.len() && #[trigger] after[j].key_of() == x;
                        lemma_rows_at(after, j);
                        if j < before.len() {
                            lemma_rows_at(before, j);
                        }
                    }
                }
                self.items = next;
            },
        }
        Ok(entity)
    }

    fn delete(&mut self, entity: E) -> (r: Result<(), StorageError>) {
        proof {
            use_type_invariant(&*self);
        }
        if !self.available {
            return Err(StorageError { detail: "store unavailable".to_owned() });
        }
        let ghost before = self.items@;
        let ghost k = entity.key_of();
        match self.position(&entity.key()) {
            Some(i) => {
                let mut next = self.copy_range(0, i);
                let n = self.items.len();
                let mut rest = self.copy_range(i + 1, n);
                next.append(&mut rest);
                assert(next@ =~= before.remove(i as int));
                let ghost after = next@;
                assert(keys_unique(after)) by {
                    assert forall|a: int, b: int|
                        0 <= a < after.len() && 0 <= b < after.len() && #[trigger] after[a].key_of()
                            == #[trigger] after[b].key_of() implies a == b by {
                        let a2 = if a < i { a } else { a + 1 };
                        let b2 = if b < i { b } else { b + 1 };
                        assert(before[a2].key_of() == before[b2].key_of());
                    }
                }
                assert(rows_of(after) =~= rows_of(before).remove(k)) by {
                    assert forall|x: K| #[trigger] rows_of(after).dom().contains(x) <==> rows_of(before).remove(
                        k,
                    ).dom().contains(x) by {
                        if holds_key(after, x) {
                            let j = choose|j: int| 0 <= j < after.len() && #[trigger] after[j].key_of() == x;
                            let j2 = if j < i { j } else { j + 1 };
                            assert(before[j2].key_of() == x);
                            if x == k {
                                assert(before[i as int].key_of() == k);
                            }
                        }
                        if x != k && holds_key(before, x) {
                            let j = choose|j: int| 0 <= j < before.len() && #[trigger] before[j].key_of() == x;
                            if j < i {
                                assert(after[j].key_of() == x);
                            } else {
                                assert(j != i);
                                assert(after[j - 1].key_of() == x);
                            }
                        }
                    }
                    assert forall|x: K| #[trigger] rows_of(after).dom().contains(x) implies rows_of(after)[x]
                        == rows_of(before).remove(k)[x] by {
                        let j = choose|j: int| 0 <= j < after.len() && #[trigger] after[j].key_of() == x;
                        lemma_rows_at(after, j);
                        let j2 = if j < i { j } else { j + 1 };
                        lemma_rows_at(before, j2);
                    }
                }
                self.items = next;
            },
            None => {
                proof {
                    lemma_rows_absent(before, k);
                }
                assert(rows_of(before) =~= rows_of(before).remove(k));
            },
        }
        Ok(())
    }
}

} // verus!
