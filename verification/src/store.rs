//! The in-memory model of the storage engine's key/value contents: an
//! association list from byte keys to byte values, with unique keys,
//! viewed as a finite map from key bytes to value bytes. Transactions
//! hold and update values of this type.

use vstd::prelude::*;

use crate::codec::copy_bytes;

verus! {

/// One database's contents: byte keys mapped to byte values.
pub struct Store {
    entries: Vec<(Vec<u8>, Vec<u8>)>,
}

/// The map a sequence of key/value entries denotes; a well-formed store
/// never repeats a key.
pub open spec fn entries_as_map(entries: Seq<(Vec<u8>, Vec<u8>)>) -> Map<Seq<u8>, Seq<u8>>
    decreases entries.len(),
{
    if entries.len() == 0 {
        Map::empty()
    } else {
        entries_as_map(entries.drop_last()).insert(entries.last().0@, entries.last().1@)
    }
}

/// A key is in the denoted map exactly when some entry holds it.
pub proof fn lemma_as_map_contains(entries: Seq<(Vec<u8>, Vec<u8>)>, k: Seq<u8>)
    ensures
        entries_as_map(entries).contains_key(k) <==> exists|i: int|
            0 <= i < entries.len() && entries[i].0@ == k,
    decreases entries.len(),
{
    if entries.len() == 0 {
    } else {
        lemma_as_map_contains(entries.drop_last(), k);
        if entries.last().0@ == k {
            assert(entries[entries.len() - 1].0@ == k);
        } else if entries_as_map(entries).contains_key(k) {
            let i = choose|i: int| 0 <= i < entries.drop_last().len() && entries.drop_last()[i].0@
                == k;
            assert(entries[i].0@ == k);
        } else if exists|i: int| 0 <= i < entries.len() && entries[i].0@ == k {
            let i = choose|i: int| 0 <= i < entries.len() && entries[i].0@ == k;
            assert(i < entries.len() - 1);
            assert(entries.drop_last()[i].0@ == k);
        }
    }
}

/// With unique keys, the denoted map sends each entry's key to that
/// entry's value.
pub proof fn lemma_as_map_index(entries: Seq<(Vec<u8>, Vec<u8>)>, i: int)
    requires
        forall|p: int, q: int| 0 <= p < q < entries.len() ==> entries[p].0@ != entries[q].0@,
        0 <= i < entries.len(),
    ensures
        entries_as_map(entries)[entries[i].0@] == entries[i].1@,
    decreases entries.len(),
{
    if i == entries.len() - 1 {
    } else {
        assert(entries.drop_last()[i] == entries[i]);
        lemma_as_map_index(entries.drop_last(), i);
        assert(entries.last().0@ != entries[i].0@);
    }
}

/// With unique keys, removing the entry that holds a key removes exactly
/// that key from the denoted map.
pub proof fn lemma_as_map_remove(entries: Seq<(Vec<u8>, Vec<u8>)>, i: int)
    requires
        forall|p: int, q: int| 0 <= p < q < entries.len() ==> entries[p].0@ != entries[q].0@,
        0 <= i < entries.len(),
    ensures
        entries_as_map(entries.remove(i)) == entries_as_map(entries).remove(entries[i].0@),
    decreases entries.len(),
{
    let k = entries[i].0@;
    if i == entries.len() - 1 {
        assert(entries.remove(i) =~= entries.drop_last());
        lemma_as_map_contains(entries.drop_last(), k);
        assert(!entries_as_map(entries.drop_last()).contains_key(k));
        assert(entries_as_map(entries.drop_last()).insert(k, entries.last().1@).remove(k)
            =~= entries_as_map(entries.drop_last()));
    } else {
        let shorter = entries.drop_last();
        assert(entries.remove(i).drop_last() =~= shorter.remove(i));
        assert(entries.remove(i).last() == entries.last());
        lemma_as_map_remove(shorter, i);
        assert(shorter[i] == entries[i]);
        assert(entries.last().0@ != k);
        assert(entries_as_map(shorter).remove(k).insert(entries.last().0@, entries.last().1@)
            =~= entries_as_map(shorter).insert(entries.last().0@, entries.last().1@).remove(k));
    }
}

/// Two byte slices hold the same bytes.
pub fn bytes_eq(a: &[u8], b: &[u8]) -> (r: bool)
    ensures
        r <==> a@ == b@,
{
    if a.len() != b.len() {
        return false;
    }
    let mut i: usize = 0;
    while i < a.len()
        invariant
            i <= a.len(),
            a.len() == b.len(),
            forall|j: int| 0 <= j < i ==> a@[j] == b@[j],
        decreases a.len() - i,
    {
        if a[i] != b[i] {
            return false;
        }
        i = i + 1;
    }
    proof {
        assert(a@ =~= b@);
    }
    true
}

impl View for Store {
    type V = Map<Seq<u8>, Seq<u8>>;

    closed spec fn view(&self) -> Map<Seq<u8>, Seq<u8>> {
        entries_as_map(self.entries@)
    }
}

impl Store {
    /// Key uniqueness: no two entries hold the same key.
    pub closed spec fn wf(&self) -> bool {
        forall|p: int, q: int|
            0 <= p < q < self.entries@.len() ==> self.entries@[p].0@ != self.entries@[q].0@
    }

    /// An empty store.
    pub fn new() -> (r: Store)
        ensures
            r.wf(),
            r@ == Map::<Seq<u8>, Seq<u8>>::empty(),
    {
        Store { entries: Vec::new() }
    }

    /// The index of the entry holding the given key, if any.
    fn find(&self, key: &[u8]) -> (r: Option<usize>)
        ensures
            match r {
                Some(i) => i < self.entries@.len() && self.entries@[i as int].0@ == key@,
                None => forall|i: int| 0 <= i < self.entries@.len() ==> self.entries@[i].0@ != key@,
            },
    {
        let mut i: usize = 0;
        while i < self.entries.len()
            invariant
                i <= self.entries@.len(),
                forall|j: int| 0 <= j < i ==> self.entries@[j].0@ != key@,
            decreases self.entries@.len() - i,
        {
            if bytes_eq(self.entries[i].0.as_slice(), key) {
                return Some(i);
            }
            i = i + 1;
        }
        None
    }

    /// Look the given key up; returns the stored value bytes, if any.
    pub fn get(&self, key: &[u8]) -> (r: Option<&Vec<u8>>)
        requires
            self.wf(),
        ensures
            match r {
                Some(v) => self@.contains_key(key@) && v@ == self@[key@],
                None => !self@.contains_key(key@),
            },
    {
        proof {
            lemma_as_map_contains(self.entries@, key@);
        }
        match self.find(key) {
            Some(i) => {
                proof {
                    lemma_as_map_index(self.entries@, i as int);
                }
                Some(&self.entries[i].1)
            },
            None => None,
        }
    }

    /// Remove the entry holding the given key, if any; returns whether
    /// one was there.
    pub fn del(&mut self, key: &[u8]) -> (r: bool)
        requires
            old(self).wf(),
        ensures
            final(self).wf(),
            final(self)@ == old(self)@.remove(key@),
            r <==> old(self)@.contains_key(key@),
    {
        proof {
            lemma_as_map_contains(self.entries@, key@);
        }
        match self.find(key) {
            Some(i) => {
                proof {
                    lemma_as_map_remove(self.entries@, i as int);
                }
                self.entries.remove(i);
                true
            },
            None => {
                proof {
                    assert(self@.remove(key@) =~= self@);
                }
                false
            },
        }
    }

    /// Map the given key to the given value, replacing any entry that
    /// held the key before.
    pub fn put(&mut self, key: &[u8], value: &[u8])
        requires
            old(self).wf(),
        ensures
            final(self).wf(),
            final(self)@ == old(self)@.insert(key@, value@),
    {
        self.del(key);
        proof {
            lemma_as_map_contains(self.entries@, key@);
        }
        let entry = (copy_bytes(key), copy_bytes(value));
        let ghost before = self.entries@;
        self.entries.push(entry);
        proof {
            assert(self.entries@.drop_last() =~= before);
            assert(entries_as_map(self.entries@) =~= old(self)@.insert(key@, value@));
        }
    }

    /// An independent copy holding the same contents.
    pub fn duplicate(&self) -> (r: Store)
        requires
            self.wf(),
        ensures
            r.wf(),
            r@ == self@,
    {
        let mut entries: Vec<(Vec<u8>, Vec<u8>)> = Vec::new();
        let mut i: usize = 0;
        while i < self.entries.len()
            invariant
                i <= self.entries@.len(),
                entries@.len() == i,
                forall|j: int| 0 <= j < i ==> entries@[j].0@ == self.entries@[j].0@
                    && entries@[j].1@ == self.entries@[j].1@,
            decreases self.entries@.len() - i,
        {
            let k = copy_bytes(self.entries[i].0.as_slice());
            let v = copy_bytes(self.entries[i].1.as_slice());
            entries.push((k, v));
            i = i + 1;
        }
        let r = Store { entries };
        proof {
            lemma_as_map_congruent(r.entries@, self.entries@);
        }
        r
    }
}

/// Entry sequences equal key-by-key and value-by-value denote the same
/// map.
pub proof fn lemma_as_map_congruent(a: Seq<(Vec<u8>, Vec<u8>)>, b: Seq<(Vec<u8>, Vec<u8>)>)
    requires
        a.len() == b.len(),
        forall|j: int| 0 <= j < a.len() ==> a[j].0@ == b[j].0@ && a[j].1@ == b[j].1@,
    ensures
        entries_as_map(a) == entries_as_map(b),
    decreases a.len(),
{
    if a.len() == 0 {
    } else {
        assert forall|j: int| 0 <= j < a.drop_last().len() implies a.drop_last()[j].0@
            == b.drop_last()[j].0@ && a.drop_last()[j].1@ == b.drop_last()[j].1@ by {
            assert(a[j].0@ == b[j].0@ && a[j].1@ == b[j].1@);
        }
        lemma_as_map_congruent(a.drop_last(), b.drop_last());
        assert(entries_as_map(a) =~= entries_as_map(b));
    }
}

} // verus!
