//! The agent room's member list as the controller mirrors it: members are
//! kept sorted by user ID, then display name (the order that `Ord` on
//! strings and options gives), and the mirror changes only when the sorted
//! list does.
use vstd::prelude::*;
use crate::keys::views_of;
use crate::text::opt_chars;

verus! {

broadcast use vstd::seq_lib::group_to_multiset_ensures, vstd::multiset::group_multiset_axioms;

/// A member of the agent room.
pub struct MatrixUser {
    pub user_id: String,
    pub display_name: Option<String>,
}

/// The contents of a member entry.
pub struct MatrixUserView {
    pub user_id: Seq<char>,
    pub display_name: Option<Seq<char>>,
}

impl View for MatrixUser {
    type V = MatrixUserView;

    open spec fn view(&self) -> MatrixUserView {
        MatrixUserView { user_id: self.user_id@, display_name: opt_chars(self.display_name) }
    }
}

/// Lexicographic order on character sequences by code point, a prefix
/// first: the order of `str`'s `Ord`, since UTF-8 keeps code point order.
pub open spec fn chars_le(a: Seq<char>, b: Seq<char>) -> bool
    decreases a.len(),
{
    if a.len() == 0 {
        true
    } else if b.len() == 0 {
        false
    } else if a[0] != b[0] {
        (a[0] as u32) < (b[0] as u32)
    } else {
        chars_le(a.drop_first(), b.drop_first())
    }
}

/// The order of `Option`: `None` first, then by contents.
pub open spec fn opt_chars_le(a: Option<Seq<char>>, b: Option<Seq<char>>) -> bool {
    match (a, b) {
        (None, _) => true,
        (Some(_), None) => false,
        (Some(x), Some(y)) => chars_le(x, y),
    }
}

/// The order of members: by user ID, then by display name.
pub open spec fn user_le(a: MatrixUserView, b: MatrixUserView) -> bool {
    if a.user_id == b.user_id {
        opt_chars_le(a.display_name, b.display_name)
    } else {
        chars_le(a.user_id, b.user_id)
    }
}

/// Members listed in order.
pub open spec fn users_sorted(s: Seq<MatrixUserView>) -> bool {
    forall|i: int, j: int| 0 <= i < j < s.len() ==> user_le(#[trigger] s[i], #[trigger] s[j])
}

proof fn lemma_char_cast_injective(x: char, y: char)
    requires
        x != y,
    ensures
        (x as u32) != (y as u32),
{
    vstd::utf8::char_u32_cast(x, x as u32);
    vstd::utf8::char_u32_cast(y, y as u32);
}

proof fn lemma_chars_le_reflexive(a: Seq<char>)
    ensures
        chars_le(a, a),
    decreases a.len(),
{
    if a.len() > 0 {
        lemma_chars_le_reflexive(a.drop_first());
    }
}

proof fn lemma_chars_le_antisymmetric(a: Seq<char>, b: Seq<char>)
    requires
        chars_le(a, b),
        chars_le(b, a),
    ensures
        a == b,
    decreases a.len(),
{
    if a.len() == 0 {
        assert(b.len() == 0);
        assert(a =~= b);
    } else {
        assert(b.len() > 0);
        if a[0] != b[0] {
            lemma_char_cast_injective(a[0], b[0]);
        } else {
            lemma_chars_le_antisymmetric(a.drop_first(), b.drop_first());
            assert(a =~= b) by {
                assert forall|i: int| 0 <= i < a.len() implies a[i] == b[i] by {
                    if i > 0 {
                        assert(a[i] == a.drop_first()[i - 1]);
                        assert(b[i] == b.drop_first()[i - 1]);
                    }
                }
            }
        }
    }
}

proof fn lemma_chars_le_transitive(a: Seq<char>, b: Seq<char>, c: Seq<char>)
    requires
        chars_le(a, b),
        chars_le(b, c),
    ensures
        chars_le(a, c),
    decreases a.len(),
{
    if a.len() > 0 {
        assert(b.len() > 0);
        assert(c.len() > 0);
        if a[0] == b[0] && b[0] == c[0] {
            lemma_chars_le_transitive(a.drop_first(), b.drop_first(), c.drop_first());
        } else if a[0] != c[0] {
            if a[0] == b[0] {
            } else if b[0] == c[0] {
            } else {
            }
        } else {
            if a[0] != b[0] {
                lemma_char_cast_injective(a[0], b[0]);
                lemma_char_cast_injective(b[0], c[0]);
            }
        }
    }
}

proof fn lemma_chars_le_total(a: Seq<char>, b: Seq<char>)
    ensures
        chars_le(a, b) || chars_le(b, a),
    decreases a.len(),
{
    if a.len() > 0 && b.len() > 0 {
        if a[0] == b[0] {
            lemma_chars_le_total(a.drop_first(), b.drop_first());
        } else {
            lemma_char_cast_injective(a[0], b[0]);
        }
    }
}

/// Two members are equal when each comes no later than the other.
pub proof fn lemma_user_le_antisymmetric(a: MatrixUserView, b: MatrixUserView)
    requires
        user_le(a, b),
        user_le(b, a),
    ensures
        a == b,
{
    if a.user_id == b.user_id {
        match (a.display_name, b.display_name) {
            (Some(x), Some(y)) => {
                lemma_chars_le_antisymmetric(x, y);
            },
            _ => {},
        }
    } else {
        lemma_chars_le_antisymmetric(a.user_id, b.user_id);
    }
}

/// The member order is transitive.
pub proof fn lemma_user_le_transitive(a: MatrixUserView, b: MatrixUserView, c: MatrixUserView)
    requires
        user_le(a, b),
        user_le(b, c),
    ensures
        user_le(a, c),
{
    if a.user_id == b.user_id && b.user_id == c.user_id {
        match (a.display_name, b.display_name, c.display_name) {
            (Some(x), Some(y), Some(z)) => {
                lemma_chars_le_transitive(x, y, z);
            },
            _ => {},
        }
    } else if a.user_id == b.user_id {
    } else if b.user_id == c.user_id {
    } else {
        lemma_chars_le_transitive(a.user_id, b.user_id, c.user_id);
        if a.user_id == c.user_id {
            lemma_chars_le_antisymmetric(a.user_id, b.user_id);
        }
    }
}

/// Any two members are ordered one way or the other.
pub proof fn lemma_user_le_total(a: MatrixUserView, b: MatrixUserView)
    ensures
        user_le(a, b) || user_le(b, a),
{
    if a.user_id == b.user_id {
        match (a.display_name, b.display_name) {
            (Some(x), Some(y)) => {
                lemma_chars_le_total(x, y);
            },
            _ => {},
        }
    } else {
        lemma_chars_le_total(a.user_id, b.user_id);
    }
}

/// Whether `a` comes no later than `b` in the string order.
pub fn str_le(a: &str, b: &str) -> (r: bool)
    ensures
        r == chars_le(a@, b@),
{
    let la = a.unicode_len();
    let lb = b.unicode_len();
    let mut k: usize = 0;
    assert(a@.skip(0) =~= a@);
    assert(b@.skip(0) =~= b@);
    while k < la && k < lb
        invariant
            la == a@.len(),
            lb == b@.len(),
            k <= la,
            k <= lb,
            chars_le(a@, b@) == chars_le(a@.skip(k as int), b@.skip(k as int)),
        decreases la - k,
    {
        let ca = a.get_char(k);
        let cb = b.get_char(k);
        assert(a@.skip(k as int)[0] == ca);
        assert(b@.skip(k as int)[0] == cb);
        if ca != cb {
            return (ca as u32) < (cb as u32);
        }
        assert(a@.skip(k as int).drop_first() =~= a@.skip(k + 1));
        assert(b@.skip(k as int).drop_first() =~= b@.skip(k + 1));
        k = k + 1;
    }
    la <= lb
}

/// Whether member `a` comes no later than member `b`.
pub fn member_le(a: &MatrixUser, b: &MatrixUser) -> (r: bool)
    ensures
        r == user_le(a@, b@),
{
    if a.user_id == b.user_id {
        match (&a.display_name, &b.display_name) {
            (None, _) => true,
            (Some(_), None) => false,
            (Some(x), Some(y)) => str_le(x.as_str(), y.as_str()),
        }
    } else {
        str_le(a.user_id.as_str(), b.user_id.as_str())
    }
}

fn insertion_point(sorted: &Vec<MatrixUser>, x: &MatrixUser) -> (p: usize)
    ensures
        p <= sorted@.len(),
        forall|i: int| 0 <= i < p ==> user_le(#[trigger] sorted@[i]@, x@),
        p < sorted@.len() ==> !user_le(sorted@[p as int]@, x@),
{
    let n = sorted.len();
    let mut p: usize = 0;
    while p < n
        invariant
            n == sorted@.len(),
            p <= n,
            forall|i: int| 0 <= i < p ==> user_le(#[trigger] sorted@[i]@, x@),
        decreases n - p,
    {
        if !member_le(&sorted[p], x) {
            return p;
        }
        p = p + 1;
    }
    p
}

proof fn lemma_insert_sorted(s: Seq<MatrixUserView>, p: int, x: MatrixUserView)
    requires
        users_sorted(s),
        0 <= p <= s.len(),
        forall|i: int| 0 <= i < p ==> user_le(#[trigger] s[i], x),
        p < s.len() ==> !user_le(s[p], x),
    ensures
        users_sorted(s.insert(p, x)),
{
    let t = s.insert(p, x);
    if p < s.len() {
        lemma_user_le_total(s[p], x);
    }
    assert forall|i: int, j: int| 0 <= i < j < t.len() implies user_le(#[trigger] t[i], #[trigger] t[j]) by {
        if j < p {
            assert(t[i] == s[i] && t[j] == s[j]);
        } else if j == p {
            assert(t[i] == s[i]);
        } else if i < p {
            assert(t[i] == s[i] && t[j] == s[j - 1]);
            assert(user_le(s[i], x));
            if p < j - 1 {
                assert(user_le(s[p], s[j - 1]));
                lemma_user_le_transitive(x, s[p], s[j - 1]);
            }
            lemma_user_le_transitive(s[i], x, s[j - 1]);
        } else if i == p {
            assert(t[j] == s[j - 1]);
            if p < j - 1 {
                assert(user_le(s[p], s[j - 1]));
                lemma_user_le_transitive(x, s[p], s[j - 1]);
            }
        } else {
            assert(t[i] == s[i - 1] && t[j] == s[j - 1]);
        }
    }
}

/// The members in order: sorted, and the same members as given.
pub fn sort_members(users: Vec<MatrixUser>) -> (sorted: Vec<MatrixUser>)
    ensures
        users_sorted(views_of(sorted@)),
        views_of(sorted@).to_multiset() == views_of(users@).to_multiset(),
{
    let ghost all = views_of(users@).to_multiset();
    let mut rest = users;
    let mut sorted: Vec<MatrixUser> = Vec::new();
    assert(views_of(sorted@) =~= Seq::<MatrixUserView>::empty());
    while rest.len() > 0
        invariant
            users_sorted(views_of(sorted@)),
            views_of(sorted@).to_multiset().add(views_of(rest@).to_multiset()) == all,
        decreases rest@.len(),
    {
        let ghost before_rest = rest@;
        let ghost before_sorted = sorted@;
        let x = rest.pop().unwrap();
        assert(views_of(before_rest) =~= views_of(rest@).push(x@));
        let p = insertion_point(&sorted, &x);
        proof {
            lemma_insert_sorted(views_of(sorted@), p as int, x@);
        }
        sorted.insert(p, x);
        assert(views_of(sorted@) =~= views_of(before_sorted).insert(p as int, x@));
        assert(views_of(sorted@).to_multiset() == views_of(before_sorted).to_multiset().insert(x@));
        assert(views_of(before_rest).to_multiset() == views_of(rest@).to_multiset().insert(x@));
        assert(views_of(sorted@).to_multiset().add(views_of(rest@).to_multiset()) =~= all);
    }
    assert(views_of(rest@) =~= Seq::<MatrixUserView>::empty());
    assert(views_of(sorted@).to_multiset().add(views_of(rest@).to_multiset()) =~= views_of(sorted@).to_multiset());
    sorted
}

/// There is one sorted arrangement of a collection of members: two sorted
/// lists of the same members are equal.
pub proof fn lemma_sorted_arrangement_unique(a: Seq<MatrixUserView>, b: Seq<MatrixUserView>)
    requires
        users_sorted(a),
        users_sorted(b),
        a.to_multiset() == b.to_multiset(),
    ensures
        a == b,
    decreases a.len(),
{
    assert(a.len() == a.to_multiset().len());
    assert(b.len() == b.to_multiset().len());
    if a.len() == 0 {
        assert(a =~= b);
    } else {
        assert(a.contains(a[0]));
        assert(a.to_multiset().count(a[0]) > 0);
        assert(b.contains(a[0]));
        let j = choose|j: int| 0 <= j < b.len() && b[j] == a[0];
        if j > 0 {
            assert(user_le(b[0], b[j]));
        } else {
            lemma_user_le_total(b[0], b[0]);
        }
        assert(user_le(b[0], a[0]));
        assert(b.contains(b[0]));
        assert(b.to_multiset().count(b[0]) > 0);
        assert(a.contains(b[0]));
        let k = choose|k: int| 0 <= k < a.len() && a[k] == b[0];
        if k > 0 {
            assert(user_le(a[0], a[k]));
        } else {
            lemma_user_le_total(a[0], a[0]);
        }
        assert(user_le(a[0], b[0]));
        lemma_user_le_antisymmetric(a[0], b[0]);
        let ra = a.remove(0);
        let rb = b.remove(0);
        assert(ra.to_multiset() == a.to_multiset().remove(a[0]));
        assert(rb.to_multiset() == b.to_multiset().remove(b[0]));
        assert forall|i: int, m: int| 0 <= i < m < ra.len() implies user_le(#[trigger] ra[i], #[trigger] ra[m]) by {
            assert(ra[i] == a[i + 1] && ra[m] == a[m + 1]);
        }
        assert forall|i: int, m: int| 0 <= i < m < rb.len() implies user_le(#[trigger] rb[i], #[trigger] rb[m]) by {
            assert(rb[i] == b[i + 1] && rb[m] == b[m + 1]);
        }
        lemma_sorted_arrangement_unique(ra, rb);
        assert forall|i: int| 0 <= i < a.len() implies a[i] == b[i] by {
            if i > 0 {
                assert(a[i] == ra[i - 1] && b[i] == rb[i - 1]);
            }
        }
        assert(a =~= b);
    }
}

/// Re-reading an unchanged membership, in whatever order the homeserver
/// lists it, leaves the mirrored list as it was: the sorted list of the new
/// reading equals the one already stored.
pub proof fn lemma_resync_same_members(
    stored: Seq<MatrixUserView>,
    reread: Seq<MatrixUserView>,
    resorted: Seq<MatrixUserView>,
)
    requires
        users_sorted(stored),
        users_sorted(resorted),
        resorted.to_multiset() == reread.to_multiset(),
        reread.to_multiset() == stored.to_multiset(),
    ensures
        resorted == stored,
{
    lemma_sorted_arrangement_unique(resorted, stored);
}

/// Whether two member lists hold the same entries in the same order.
pub fn same_members(a: &Vec<MatrixUser>, b: &Vec<MatrixUser>) -> (r: bool)
    ensures
        r == (views_of(a@) == views_of(b@)),
{
    if a.len() != b.len() {
        assert(views_of(a@).len() != views_of(b@).len());
        return false;
    }
    let n = a.len();
    let mut i: usize = 0;
    while i < n
        invariant
            n == a@.len(),
            n == b@.len(),
            i <= n,
            forall|j: int| 0 <= j < i ==> a@[j]@ == b@[j]@,
        decreases n - i,
    {
        let x = &a[i];
        let y = &b[i];
        let same_name = match (&x.display_name, &y.display_name) {
            (None, None) => true,
            (Some(p), Some(q)) => *p == *q,
            _ => false,
        };
        if !(x.user_id == y.user_id && same_name) {
            assert(views_of(a@)[i as int] != views_of(b@)[i as int]);
            return false;
        }
        i = i + 1;
    }
    assert(views_of(a@) =~= views_of(b@));
    true
}

/// Replaces the mirrored member list by the sorted `fetched` list when the
/// two differ; tells whether it did.
pub fn refresh_members(stored: &mut Vec<MatrixUser>, fetched: Vec<MatrixUser>) -> (changed: bool)
    ensures
        users_sorted(views_of(final(stored)@)),
        views_of(final(stored)@).to_multiset() == views_of(fetched@).to_multiset(),
        changed <==> views_of(old(stored)@) != views_of(final(stored)@),
        !changed ==> final(stored)@ == old(stored)@,
{
    let members = sort_members(fetched);
    if same_members(stored, &members) {
        false
    } else {
        *stored = members;
        true
    }
}

/// `chars_le` is the lexicographic order: `a` comes no later than `b`
/// exactly when `a` is a prefix of `b`, or `a` has the smaller code point at
/// the first position where the two differ.
pub proof fn lemma_chars_le_lexicographic(a: Seq<char>, b: Seq<char>)
    ensures
        chars_le(a, b) <==> ((a.len() <= b.len() && a == b.subrange(0, a.len() as int)) || exists|k: int|
            0 <= k < a.len() && k < b.len() && a.subrange(0, k) == b.subrange(0, k) && (a[k] as u32) < (
            #[trigger] b[k] as u32)),
    decreases a.len(),
{
    if a.len() == 0 {
        assert(a =~= b.subrange(0, 0));
    } else if b.len() == 0 {
    } else if a[0] != b[0] {
        lemma_char_cast_injective(a[0], b[0]);
        if (a[0] as u32) < (b[0] as u32) {
            assert(a.subrange(0, 0) =~= b.subrange(0, 0));
            assert(b[0] == b[0]);
        } else {
            if exists|k: int|
                0 <= k < a.len() && k < b.len() && a.subrange(0, k) == b.subrange(0, k) && (a[k] as u32) < (
                #[trigger] b[k] as u32) {
                let k = choose|k: int|
                    0 <= k < a.len() && k < b.len() && a.subrange(0, k) == b.subrange(0, k) && (a[k] as u32) < (
                    #[trigger] b[k] as u32);
                if k > 0 {
                    assert(a.subrange(0, k)[0] == b.subrange(0, k)[0]);
                }
            }
            if a.len() <= b.len() && a == b.subrange(0, a.len() as int) {
                assert(a[0] == b.subrange(0, a.len() as int)[0]);
            }
        }
    } else {
        let a1 = a.drop_first();
        let b1 = b.drop_first();
        lemma_chars_le_lexicographic(a1, b1);
        if a.len() <= b.len() && a == b.subrange(0, a.len() as int) {
            assert(a1 =~= b1.subrange(0, a1.len() as int));
        }
        if a1.len() <= b1.len() && a1 == b1.subrange(0, a1.len() as int) {
            assert forall|i: int| 0 <= i < a.len() implies #[trigger] a[i] == b.subrange(0, a.len() as int)[i] by {
                if i > 0 {
                    assert(a[i] == a1[i - 1]);
                    assert(a1[i - 1] == b1.subrange(0, a1.len() as int)[i - 1]);
                    assert(b1[i - 1] == b[i]);
                }
            }
            assert(a =~= b.subrange(0, a.len() as int));
        }
        if exists|k: int|
            0 <= k < a.len() && k < b.len() && a.subrange(0, k) == b.subrange(0, k) && (a[k] as u32) < (
            #[trigger] b[k] as u32) {
            let k = choose|k: int|
                0 <= k < a.len() && k < b.len() && a.subrange(0, k) == b.subrange(0, k) && (a[k] as u32) < (
                #[trigger] b[k] as u32);
            if k == 0 {
                lemma_char_cast_injective(a[0], b[0]);
                assert(false);
            } else {
                assert(a1.subrange(0, k - 1) =~= a.subrange(0, k).subrange(1, k));
                assert(b1.subrange(0, k - 1) =~= b.subrange(0, k).subrange(1, k));
                assert(a1[k - 1] == a[k]);
                assert(b1[k - 1] == b[k]);
            }
        }
        if exists|k: int|
            0 <= k < a1.len() && k < b1.len() && a1.subrange(0, k) == b1.subrange(0, k) && (a1[k] as u32) < (
            #[trigger] b1[k] as u32) {
            let k = choose|k: int|
                0 <= k < a1.len() && k < b1.len() && a1.subrange(0, k) == b1.subrange(0, k) && (a1[k] as u32) < (
                #[trigger] b1[k] as u32);
            assert forall|m: int| 0 <= m < k + 1 implies #[trigger] a.subrange(0, k + 1)[m] == b.subrange(0, k + 1)[m] by {
                if m > 0 {
                    assert(a.subrange(0, k + 1)[m] == a1.subrange(0, k)[m - 1]);
                    assert(b.subrange(0, k + 1)[m] == b1.subrange(0, k)[m - 1]);
                }
            }
            assert(a.subrange(0, k + 1) =~= b.subrange(0, k + 1));
            assert(a[k + 1] == a1[k]);
            assert(b[k + 1] == b1[k]);
        }
    }
}

/// Members are ordered by user ID first; among entries of one user, one
/// without a display name comes first, then by display name.
pub proof fn lemma_user_le_by_id_then_name(a: MatrixUserView, b: MatrixUserView)
    ensures
        a.user_id != b.user_id ==> (user_le(a, b) <==> chars_le(a.user_id, b.user_id)),
        a.user_id == b.user_id && a.display_name is None ==> user_le(a, b),
        a.user_id == b.user_id && a.display_name is Some && b.display_name is None ==> !user_le(a, b),
        a.user_id == b.user_id && a.display_name is Some && b.display_name is Some ==> (user_le(a, b)
            <==> chars_le(a.display_name.unwrap(), b.display_name.unwrap())),
{
}

} // verus!
