//! An in-memory list of records kept in insertion order and addressed by
//! identifier, as the backends keep VM configurations and task queues.
use vstd::prelude::*;
use crate::keys::{
    Keyed, views_of, keys_of, lookup, position_by_key, lemma_index_after_push_fresh,
    lemma_index_after_push_other, lemma_index_bounds, lemma_first_index, lemma_no_index,
    lemma_remove_unique,
};

verus! {

/// No record carries the identifier asked for (HTTP 404).
#[derive(PartialEq, Eq, Structural, Debug, Clone, Copy)]
pub struct NotFound;

/// A record that can be copied with its view unchanged.
pub trait Duplicate: View + Sized {
    /// A copy of the record.
    fn duplicate(&self) -> (c: Self)
        ensures
            c@ == self@,
    ;
}

/// Copies every record of a list.
pub fn duplicate_all<T: Duplicate>(items: &Vec<T>) -> (copies: Vec<T>)
    ensures
        views_of(copies@) == views_of(items@),
{
    let mut copies: Vec<T> = Vec::new();
    let n = items.len();
    let mut i: usize = 0;
    while i < n
        invariant
            n == items@.len(),
            i <= n,
            views_of(copies@) == views_of(items@).subrange(0, i as int),
        decreases n - i,
    {
        let c = items[i].duplicate();
        let ghost prev = copies@;
        copies.push(c);
        assert(views_of(copies@) =~= views_of(prev).push(items@[i as int]@));
        i = i + 1;
        assert(views_of(copies@) =~= views_of(items@).subrange(0, i as int));
    }
    assert(views_of(items@).subrange(0, n as int) =~= views_of(items@));
    copies
}

/// Records in insertion order.
pub struct Registry<T> {
    items: Vec<T>,
}

impl<T: Keyed> View for Registry<T> {
    type V = Seq<T::V>;

    closed spec fn view(&self) -> Seq<T::V> {
        views_of(self.items@)
    }
}

impl<T: Keyed> Registry<T> {
    /// An empty registry.
    pub fn new() -> (r: Self)
        ensures
            r@ == Seq::<T::V>::empty(),
    {
        let r = Registry { items: Vec::new() };
        assert(r@ =~= Seq::<T::V>::empty());
        r
    }

    /// All records, in insertion order.
    pub fn records(&self) -> (v: &Vec<T>)
        ensures
            views_of(v@) == self@,
    {
        &self.items
    }

    /// The number of records.
    pub fn len(&self) -> (n: usize)
        ensures
            n == self@.len(),
    {
        self.items.len()
    }

    /// The record at position `i`.
    pub fn at(&self, i: usize) -> (t: &T)
        requires
            i < self@.len(),
        ensures
            t@ == self@[i as int],
    {
        &self.items[i]
    }

    /// Appends a record.
    pub fn push(&mut self, t: T)
        ensures
            final(self)@ == old(self)@.push(t@),
    {
        self.items.push(t);
        assert(views_of(self.items@) =~= views_of(old(self).items@).push(t@));
    }

    /// The position of the first record with identifier `key`.
    pub fn position(&self, key: &String) -> (r: Option<usize>)
        ensures
            match r {
                Some(i) => i < self@.len() && keys_of::<T>(self@).index_of_first(key@) == Some(
                    i as int,
                ),
                None => keys_of::<T>(self@).index_of_first(key@) is None,
            },
    {
        let r = position_by_key(&self.items, key);
        proof {
            keys_of::<T>(self@).index_of_first_ensures(key@);
        }
        r
    }

    /// The first record with identifier `key`.
    pub fn find(&self, key: &String) -> (r: Result<&T, NotFound>)
        ensures
            match lookup::<T>(self@, key@) {
                Some(v) => r matches Ok(t) && t@ == v,
                None => r == Err::<&T, NotFound>(NotFound),
            },
    {
        match self.position(key) {
            Some(i) => Ok(&self.items[i]),
            None => Err(NotFound),
        }
    }

    /// Replaces the record at position `i`.
    pub fn set_at(&mut self, i: usize, t: T)
        requires
            i < old(self)@.len(),
        ensures
            final(self)@ == old(self)@.update(i as int, t@),
    {
        self.items.set(i, t);
        assert(views_of(self.items@) =~= views_of(old(self).items@).update(i as int, t@));
    }

    /// Removes the record at position `i`, keeping the others in order.
    pub fn remove_at(&mut self, i: usize) -> (t: T)
        requires
            i < old(self)@.len(),
        ensures
            t@ == old(self)@[i as int],
            final(self)@ == old(self)@.remove(i as int),
    {
        let t = self.items.remove(i);
        assert(views_of(self.items@) =~= views_of(old(self).items@).remove(i as int));
        t
    }

    /// Removes the first record with identifier `key`.
    pub fn remove(&mut self, key: &String) -> (r: Result<T, NotFound>)
        ensures
            match keys_of::<T>(old(self)@).index_of_first(key@) {
                Some(i) => r matches Ok(t) && t@ == old(self)@[i] && final(self)@ == old(self)@.remove(i),
                None => r == Err::<T, NotFound>(NotFound) && final(self)@ == old(self)@,
            },
    {
        match self.position(key) {
            Some(i) => Ok(self.remove_at(i)),
            None => Err(NotFound),
        }
    }
}

/// Read after create: a record appended under an identifier that no record
/// carries is what a lookup of that identifier finds afterwards, and lookups
/// of the other identifiers find what they found before.
pub proof fn lemma_lookup_after_push<T: Keyed>(views: Seq<T::V>, v: T::V, key: Seq<char>)
    requires
        !keys_of::<T>(views).contains(T::view_key(v)),
    ensures
        lookup::<T>(views.push(v), T::view_key(v)) == Some(v),
        key != T::view_key(v) ==> lookup::<T>(views.push(v), key) == lookup::<T>(views, key),
{
    let keys = keys_of::<T>(views);
    assert(keys_of::<T>(views.push(v)) =~= keys.push(T::view_key(v)));
    lemma_index_after_push_fresh(keys, T::view_key(v));
    if key != T::view_key(v) {
        lemma_index_after_push_other(keys, T::view_key(v), key);
        lemma_index_bounds(keys, key);
    }
}

/// Read after update: replacing the record that a lookup of `key` finds by
/// one with the same identifier makes the lookup find the replacement, and
/// leaves every other lookup as it was.
pub proof fn lemma_lookup_after_update<T: Keyed>(views: Seq<T::V>, key: Seq<char>, w: T::V, other: Seq<char>)
    requires
        keys_of::<T>(views).index_of_first(key) is Some,
        T::view_key(w) == key,
    ensures
        lookup::<T>(views.update(keys_of::<T>(views).index_of_first(key).unwrap(), w), key) == Some(w),
        other != key ==> lookup::<T>(
            views.update(keys_of::<T>(views).index_of_first(key).unwrap(), w),
            other,
        ) == lookup::<T>(views, other),
{
    let keys = keys_of::<T>(views);
    let i = keys.index_of_first(key).unwrap();
    lemma_index_bounds(keys, key);
    let updated = views.update(i, w);
    assert(keys_of::<T>(updated) =~= keys);
    lemma_index_bounds(keys, other);
    match keys.index_of_first(other) {
        Some(j) => {
            if other != key {
                assert(j != i);
                assert(updated[j] == views[j]);
            }
        },
        None => {},
    }
}

/// Read after delete: where no two records share an identifier, removing the
/// record that a lookup of `key` finds makes that lookup find nothing, and
/// leaves every other lookup as it was.
pub proof fn lemma_lookup_after_remove<T: Keyed>(views: Seq<T::V>, key: Seq<char>, other: Seq<char>)
    requires
        keys_of::<T>(views).no_duplicates(),
        keys_of::<T>(views).index_of_first(key) is Some,
    ensures
        lookup::<T>(views.remove(keys_of::<T>(views).index_of_first(key).unwrap()), key) is None,
        other != key ==> lookup::<T>(
            views.remove(keys_of::<T>(views).index_of_first(key).unwrap()),
            other,
        ) == lookup::<T>(views, other),
{
    let keys = keys_of::<T>(views);
    let i = keys.index_of_first(key).unwrap();
    lemma_index_bounds(keys, key);
    let removed = views.remove(i);
    assert(keys_of::<T>(removed) =~= keys.remove(i));
    lemma_remove_unique(keys, key, i);
    lemma_index_bounds(keys.remove(i), key);
    if other != key {
        lemma_index_bounds(keys, other);
        match keys.index_of_first(other) {
            Some(j) => {
                assert(j != i);
                if j < i {
                    assert forall|m: int| 0 <= m < j implies keys.remove(i)[m] != other by {
                        assert(keys.remove(i)[m] == keys[m]);
                    }
                    assert(keys.remove(i)[j] == keys[j]);
                    lemma_first_index(keys.remove(i), other, j);
                    assert(removed[j] == views[j]);
                } else {
                    assert forall|m: int| 0 <= m < j - 1 implies keys.remove(i)[m] != other by {
                        if m < i {
                            assert(keys.remove(i)[m] == keys[m]);
                        } else {
                            assert(keys.remove(i)[m] == keys[m + 1]);
                        }
                    }
                    assert(keys.remove(i)[j - 1] == keys[j]);
                    lemma_first_index(keys.remove(i), other, j - 1);
                    assert(removed[j - 1] == views[j]);
                }
            },
            None => {
                assert forall|m: int| 0 <= m < keys.remove(i).len() implies keys.remove(i)[m] != other by {
                    if m < i {
                        assert(keys.remove(i)[m] == keys[m]);
                    } else {
                        assert(keys.remove(i)[m] == keys[m + 1]);
                    }
                }
                lemma_no_index(keys.remove(i), other);
            },
        }
    }
}

/// Creating under a fresh identifier keeps identifiers unique.
pub proof fn lemma_push_fresh_keeps_unique<T: Keyed>(views: Seq<T::V>, v: T::V)
    requires
        keys_of::<T>(views).no_duplicates(),
        !keys_of::<T>(views).contains(T::view_key(v)),
    ensures
        keys_of::<T>(views.push(v)).no_duplicates(),
{
    let keys = keys_of::<T>(views);
    let pushed = keys_of::<T>(views.push(v));
    assert(pushed =~= keys.push(T::view_key(v)));
    assert forall|i: int, j: int| 0 <= i < pushed.len() && 0 <= j < pushed.len() && i != j implies pushed[i] != pushed[j] by {
        if i < keys.len() && j < keys.len() {
            assert(pushed[i] == keys[i] && pushed[j] == keys[j]);
        } else if i < keys.len() {
            assert(pushed[i] == keys[i]);
            assert(keys.contains(keys[i]));
        } else if j < keys.len() {
            assert(pushed[j] == keys[j]);
            assert(keys.contains(keys[j]));
        }
    }
}

/// Delete undoes create: removing, by its identifier, a record just appended
/// under a fresh identifier gives back the records as they were.
pub proof fn lemma_remove_after_push_fresh<T: Keyed>(views: Seq<T::V>, v: T::V)
    requires
        !keys_of::<T>(views).contains(T::view_key(v)),
    ensures
        keys_of::<T>(views.push(v)).index_of_first(T::view_key(v)) == Some(views.len() as int),
        views.push(v).remove(views.len() as int) == views,
{
    let keys = keys_of::<T>(views);
    assert(keys_of::<T>(views.push(v)) =~= keys.push(T::view_key(v)));
    lemma_index_after_push_fresh(keys, T::view_key(v));
    assert(views.push(v).remove(views.len() as int) =~= views);
}

} // verus!
