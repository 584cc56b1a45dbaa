//! Lookup of records by their string identifier: the first record whose
//! identifier equals the one asked for, as `Iterator::position` finds it.
use vstd::prelude::*;

verus! {

/// A record that carries a string identifier, seen through its view.
pub trait Keyed: View + Sized {
    /// The identifier of a record's view.
    spec fn view_key(v: Self::V) -> Seq<char>;

    /// The identifier of the record.
    fn key(&self) -> (k: &String)
        ensures
            k@ == Self::view_key(self@),
    ;
}

/// The views of a sequence of records.
pub open spec fn views_of<T: View>(items: Seq<T>) -> Seq<T::V> {
    items.map_values(|t: T| t@)
}

/// The identifiers of a sequence of record views, in order.
pub open spec fn keys_of<T: Keyed>(views: Seq<T::V>) -> Seq<Seq<char>> {
    views.map_values(|v: T::V| T::view_key(v))
}

/// The first record view whose identifier is `key`, if any.
pub open spec fn lookup<T: Keyed>(views: Seq<T::V>, key: Seq<char>) -> Option<T::V> {
    match keys_of::<T>(views).index_of_first(key) {
        Some(i) => Some(views[i]),
        None => None,
    }
}

/// `i` is the first position of `x` in `s`.
pub open spec fn is_first_index<A>(s: Seq<A>, x: A, i: int) -> bool {
    &&& 0 <= i < s.len()
    &&& s[i] == x
    &&& forall|j: int| 0 <= j < i ==> s[j] != x
}

/// Characterises `index_of_first` by the first position.
pub proof fn lemma_first_index<A>(s: Seq<A>, x: A, i: int)
    requires
        is_first_index(s, x, i),
    ensures
        s.index_of_first(x) == Some(i),
{
    s.index_of_first_ensures(x);
    assert(s.contains(x));
    let k = s.index_of_first(x).unwrap();
    if k < i {
        assert(s[k] != x);
    } else if k > i {
        assert(s[i] != x);
    }
}

/// Where `index_of_first` finds `x`, the position is in range and holds `x`,
/// and no earlier position does.
pub proof fn lemma_index_bounds<A>(s: Seq<A>, x: A)
    ensures
        s.index_of_first(x) matches Some(i) ==> is_first_index(s, x, i),
        s.index_of_first(x) is None ==> !s.contains(x),
{
    s.index_of_first_ensures(x);
}

/// `index_of_first` finds nothing where no element equals `x`.
pub proof fn lemma_no_index<A>(s: Seq<A>, x: A)
    requires
        forall|j: int| 0 <= j < s.len() ==> s[j] != x,
    ensures
        s.index_of_first(x) is None,
{
    s.index_of_first_ensures(x);
    if s.contains(x) {
        let j = choose|j: int| 0 <= j < s.len() && s[j] == x;
        assert(s[j] == x);
    }
}

/// The position of the first record whose identifier is `key`.
pub fn position_by_key<T: Keyed>(items: &Vec<T>, key: &String) -> (r: Option<usize>)
    ensures
        match r {
            Some(i) => keys_of::<T>(views_of(items@)).index_of_first(key@) == Some(i as int),
            None => keys_of::<T>(views_of(items@)).index_of_first(key@) is None,
        },
{
    let ghost keys = keys_of::<T>(views_of(items@));
    let n = items.len();
    let mut i: usize = 0;
    while i < n
        invariant
            n == items@.len(),
            keys == keys_of::<T>(views_of(items@)),
            keys.len() == n,
            i <= n,
            forall|j: int| 0 <= j < i ==> keys[j] != key@,
        decreases n - i,
    {
        let k = items[i].key();
        assert(keys[i as int] == T::view_key(items@[i as int]@));
        if *k == *key {
            proof {
                lemma_first_index(keys, key@, i as int);
            }
            return Some(i);
        }
        i = i + 1;
    }
    proof {
        lemma_no_index(keys, key@);
    }
    None
}

/// A key that does not occur is found, after it is appended, at the end.
pub proof fn lemma_index_after_push_fresh(keys: Seq<Seq<char>>, k: Seq<char>)
    requires
        !keys.contains(k),
    ensures
        keys.push(k).index_of_first(k) == Some(keys.len() as int),
{
    let s = keys.push(k);
    assert forall|j: int| 0 <= j < keys.len() implies s[j] != k by {
        assert(s[j] == keys[j]);
    }
    lemma_first_index(s, k, keys.len() as int);
}

/// Appending a key leaves the first position of a key that already occurs.
pub proof fn lemma_index_after_push_other(keys: Seq<Seq<char>>, k: Seq<char>, x: Seq<char>)
    requires
        keys.contains(x) || k != x,
    ensures
        keys.push(k).index_of_first(x) == keys.index_of_first(x),
{
    let s = keys.push(k);
    keys.index_of_first_ensures(x);
    match keys.index_of_first(x) {
        Some(i) => {
            assert forall|j: int| 0 <= j < i implies s[j] != x by {
                assert(s[j] == keys[j]);
            }
            lemma_first_index(s, x, i);
        },
        None => {
            assert forall|j: int| 0 <= j < s.len() implies s[j] != x by {
                if j < keys.len() {
                    assert(s[j] == keys[j]);
                    if s[j] == x {
                        assert(keys.contains(x));
                    }
                }
            }
            lemma_no_index(s, x);
        },
    }
}

/// Where no key occurs twice, removing the first occurrence of `k` removes
/// every occurrence of it.
pub proof fn lemma_remove_unique(keys: Seq<Seq<char>>, k: Seq<char>, i: int)
    requires
        keys.no_duplicates(),
        keys.index_of_first(k) == Some(i),
    ensures
        !keys.remove(i).contains(k),
{
    keys.index_of_first_ensures(k);
    let r = keys.remove(i);
    if r.contains(k) {
        let j = choose|j: int| 0 <= j < r.len() && r[j] == k;
        if j < i {
            assert(r[j] == keys[j]);
        } else {
            assert(r[j] == keys[j + 1]);
        }
    }
}

} // verus!
