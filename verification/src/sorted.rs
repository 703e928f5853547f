//! A set of values kept in the order of their keys.
//!
//! Every value has a key, a byte string under which it is found; no two
//! values of a set share a key, and the values stand in the lexicographic
//! order of their keys.

use crate::bytes::{
    lemma_lex_asymmetric, lemma_lex_irreflexive, lemma_lex_total, lemma_lex_transitive, lex_lt,
    lex_order, Order,
};
use vstd::prelude::*;

verus! {

/// A value that is found and ordered by a key of bytes.
pub trait Keyed: View {
    /// The key of a value, read off its view.
    spec fn key_of(v: Self::V) -> Seq<u8>;

    /// Computes the key.
    fn key_bytes(&self) -> (k: Vec<u8>)
        ensures
            k@ == Self::key_of(self@),
    ;
}

/// The keys of `s` are strictly increasing.
pub open spec fn keys_sorted<T: Keyed>(s: Seq<T::V>) -> bool {
    forall|i: int, j: int|
        0 <= i < j < s.len() ==> lex_lt(#[trigger] T::key_of(s[i]), #[trigger] T::key_of(s[j]))
}

/// Some value of `s` has the key `k`.
pub open spec fn has_key<T: Keyed>(s: Seq<T::V>, k: Seq<u8>) -> bool {
    exists|i: int| 0 <= i < s.len() && #[trigger] T::key_of(s[i]) == k
}

/// The number of values of `s` whose key comes before `k`.
pub open spec fn rank<T: Keyed>(s: Seq<T::V>, k: Seq<u8>) -> int
    decreases s.len(),
{
    if s.len() == 0 {
        0
    } else {
        rank::<T>(s.drop_last(), k) + if lex_lt(T::key_of(s.last()), k) {
            1int
        } else {
            0int
        }
    }
}

/// The value of `s` that has the key `k`, if there is one.
pub open spec fn lookup<T: Keyed>(s: Seq<T::V>, k: Seq<u8>) -> Option<T::V> {
    if has_key::<T>(s, k) {
        Some(s[choose|i: int| 0 <= i < s.len() && #[trigger] T::key_of(s[i]) == k])
    } else {
        None
    }
}

/// `s` with `v` put in at the rank of its key, unless a value has that key already.
pub open spec fn put_new<T: Keyed>(s: Seq<T::V>, v: T::V) -> Seq<T::V> {
    if has_key::<T>(s, T::key_of(v)) {
        s
    } else {
        s.insert(rank::<T>(s, T::key_of(v)), v)
    }
}

/// `s` with `v` put in at the rank of its key, in place of the value that had that key.
pub open spec fn put<T: Keyed>(s: Seq<T::V>, v: T::V) -> Seq<T::V> {
    if has_key::<T>(s, T::key_of(v)) {
        s.update(rank::<T>(s, T::key_of(v)), v)
    } else {
        s.insert(rank::<T>(s, T::key_of(v)), v)
    }
}

/// `s` without the value that has the key `k`.
pub open spec fn without<T: Keyed>(s: Seq<T::V>, k: Seq<u8>) -> Seq<T::V> {
    if has_key::<T>(s, k) {
        s.remove(rank::<T>(s, k))
    } else {
        s
    }
}

/// `s` after the values of `list` were put in one by one, each unless its
/// key was there already: of values with one key the first stays.
pub open spec fn put_new_all<T: Keyed>(s: Seq<T::V>, list: Seq<T::V>) -> Seq<T::V>
    decreases list.len(),
{
    if list.len() == 0 {
        s
    } else {
        put_new_all::<T>(put_new::<T>(s, list[0]), list.drop_first())
    }
}

/// `s` after the values of `list` were put in one by one, each in place of
/// the value that had its key: of values with one key the last stays.
pub open spec fn put_all<T: Keyed>(s: Seq<T::V>, list: Seq<T::V>) -> Seq<T::V>
    decreases list.len(),
{
    if list.len() == 0 {
        s
    } else {
        put_all::<T>(put::<T>(s, list[0]), list.drop_first())
    }
}

/// Where every key before `p` comes before `k` and no other does, `p` is the rank of `k`.
pub proof fn lemma_rank_is_split<T: Keyed>(s: Seq<T::V>, k: Seq<u8>, p: int)
    requires
        0 <= p <= s.len(),
        forall|i: int| 0 <= i < p ==> lex_lt(#[trigger] T::key_of(s[i]), k),
        forall|i: int| p <= i < s.len() ==> !lex_lt(#[trigger] T::key_of(s[i]), k),
    ensures
        rank::<T>(s, k) == p,
    decreases s.len(),
{
    if s.len() > 0 {
        let t = s.drop_last();
        if p == s.len() {
            assert(lex_lt(T::key_of(s[p - 1]), k));
            lemma_rank_is_split::<T>(t, k, p - 1);
        } else {
            assert(!lex_lt(T::key_of(s[s.len() - 1]), k));
            lemma_rank_is_split::<T>(t, k, p);
        }
    }
}

/// In a sorted sequence the keys before the rank of `k` come before `k`, and
/// the others do not; where no value has the key `k`, the others come after it.
pub proof fn lemma_rank_splits<T: Keyed>(s: Seq<T::V>, k: Seq<u8>)
    requires
        keys_sorted::<T>(s),
    ensures
        0 <= rank::<T>(s, k) <= s.len(),
        forall|i: int| 0 <= i < rank::<T>(s, k) ==> lex_lt(#[trigger] T::key_of(s[i]), k),
        forall|i: int| rank::<T>(s, k) <= i < s.len() ==> !lex_lt(#[trigger] T::key_of(s[i]), k),
        !has_key::<T>(s, k) ==> forall|i: int|
            rank::<T>(s, k) <= i < s.len() ==> lex_lt(k, #[trigger] T::key_of(s[i])),
    decreases s.len(),
{
    if s.len() > 0 {
        let t = s.drop_last();
        let last = s.len() - 1;
        assert forall|i: int, j: int| 0 <= i < j < t.len() implies lex_lt(
            #[trigger] T::key_of(t[i]),
            #[trigger] T::key_of(t[j]),
        ) by {
            assert(t[i] == s[i] && t[j] == s[j]);
        }
        lemma_rank_splits::<T>(t, k);
        let p = rank::<T>(t, k);
        assert forall|i: int| 0 <= i < t.len() implies t[i] == s[i] by {}
        if lex_lt(T::key_of(s[last]), k) {
            if p < t.len() {
                assert(t[p] == s[p]);
                lemma_lex_transitive(T::key_of(s[p]), T::key_of(s[last]), k);
            }
            assert(rank::<T>(s, k) == s.len());
        } else {
            assert(rank::<T>(s, k) == p);
        }
        let r = rank::<T>(s, k);
        assert forall|i: int| 0 <= i < r implies lex_lt(#[trigger] T::key_of(s[i]), k) by {
            if i < t.len() {
                assert(t[i] == s[i]);
            }
        }
        assert forall|i: int| r <= i < s.len() implies !lex_lt(#[trigger] T::key_of(s[i]), k) by {
            if i < t.len() {
                assert(t[i] == s[i]);
            }
        }
        if !has_key::<T>(s, k) {
            assert forall|i: int| r <= i < s.len() implies lex_lt(
                k,
                #[trigger] T::key_of(s[i]),
            ) by {
                lemma_lex_total(T::key_of(s[i]), k);
            }
        }
    }
}

/// In a sorted sequence a key stands at one place only.
pub proof fn lemma_key_place_unique<T: Keyed>(s: Seq<T::V>, i: int, j: int)
    requires
        keys_sorted::<T>(s),
        0 <= i < s.len(),
        0 <= j < s.len(),
        T::key_of(s[i]) == T::key_of(s[j]),
    ensures
        i == j,
{
    lemma_lex_irreflexive(T::key_of(s[i]));
}

/// In a sorted sequence the value found under a key is the one that stands
/// at the key's rank.
pub proof fn lemma_lookup_at<T: Keyed>(s: Seq<T::V>, i: int)
    requires
        keys_sorted::<T>(s),
        0 <= i < s.len(),
    ensures
        has_key::<T>(s, T::key_of(s[i])),
        lookup::<T>(s, T::key_of(s[i])) == Some(s[i]),
        rank::<T>(s, T::key_of(s[i])) == i,
{
    let k = T::key_of(s[i]);
    let c = choose|c: int| 0 <= c < s.len() && #[trigger] T::key_of(s[c]) == k;
    lemma_key_place_unique::<T>(s, i, c);
    assert forall|j: int| i <= j < s.len() implies !lex_lt(#[trigger] T::key_of(s[j]), k) by {
        lemma_lex_irreflexive(k);
        if i < j {
            lemma_lex_asymmetric(k, T::key_of(s[j]));
        }
    }
    lemma_rank_is_split::<T>(s, k, i);
}

/// A key that a sorted sequence lacks can be put in at its rank.
pub proof fn lemma_insert_sorted<T: Keyed>(s: Seq<T::V>, v: T::V, p: int)
    requires
        keys_sorted::<T>(s),
        0 <= p <= s.len(),
        forall|i: int| 0 <= i < p ==> lex_lt(#[trigger] T::key_of(s[i]), T::key_of(v)),
        forall|i: int| p <= i < s.len() ==> lex_lt(T::key_of(v), #[trigger] T::key_of(s[i])),
    ensures
        keys_sorted::<T>(s.insert(p, v)),
        forall|k: Seq<u8>|
            has_key::<T>(s.insert(p, v), k) <==> (k == T::key_of(v) || has_key::<T>(s, k)),
        forall|k: Seq<u8>|
            k != T::key_of(v) ==> lookup::<T>(s.insert(p, v), k) == lookup::<T>(s, k),
        lookup::<T>(s.insert(p, v), T::key_of(v)) == Some(v),
{
    let t = s.insert(p, v);
    assert forall|i: int, j: int| 0 <= i < j < t.len() implies lex_lt(
        #[trigger] T::key_of(t[i]),
        #[trigger] T::key_of(t[j]),
    ) by {
        if j < p {
            assert(t[i] == s[i] && t[j] == s[j]);
        } else if j == p {
            assert(t[i] == s[i]);
        } else if i < p {
            assert(t[i] == s[i] && t[j] == s[j - 1]);
        } else if i == p {
            assert(t[j] == s[j - 1]);
        } else {
            assert(t[i] == s[i - 1] && t[j] == s[j - 1]);
        }
    }
    assert(t[p] == v);
    assert forall|k: Seq<u8>| has_key::<T>(t, k) <==> (k == T::key_of(v) || has_key::<T>(s, k)) by {
        if has_key::<T>(t, k) {
            let i = choose|i: int| 0 <= i < t.len() && #[trigger] T::key_of(t[i]) == k;
            if i < p {
                assert(t[i] == s[i]);
            } else if i > p {
                assert(t[i] == s[i - 1]);
            }
        }
        if has_key::<T>(s, k) {
            let i = choose|i: int| 0 <= i < s.len() && #[trigger] T::key_of(s[i]) == k;
            if i < p {
                assert(t[i] == s[i]);
            } else {
                assert(t[i + 1] == s[i]);
            }
        }
    }
    assert forall|k: Seq<u8>| k != T::key_of(v) implies lookup::<T>(t, k) == lookup::<T>(s, k) by {
        if has_key::<T>(s, k) {
            let i = choose|i: int| 0 <= i < s.len() && #[trigger] T::key_of(s[i]) == k;
            let i2 = if i < p {
                i
            } else {
                i + 1
            };
            assert(t[i2] == s[i]);
            lemma_lookup_at::<T>(t, i2);
        }
    }
    lemma_lookup_at::<T>(t, p);
}

/// Taking a value out of a sorted sequence leaves the others as they were.
pub proof fn lemma_remove_sorted<T: Keyed>(s: Seq<T::V>, p: int)
    requires
        keys_sorted::<T>(s),
        0 <= p < s.len(),
    ensures
        keys_sorted::<T>(s.remove(p)),
        forall|k: Seq<u8>|
            has_key::<T>(s.remove(p), k) <==> (k != T::key_of(s[p]) && has_key::<T>(s, k)),
        forall|k: Seq<u8>|
            k != T::key_of(s[p]) ==> lookup::<T>(s.remove(p), k) == lookup::<T>(s, k),
        lookup::<T>(s.remove(p), T::key_of(s[p])) is None,
{
    let t = s.remove(p);
    assert forall|i: int, j: int| 0 <= i < j < t.len() implies lex_lt(
        #[trigger] T::key_of(t[i]),
        #[trigger] T::key_of(t[j]),
    ) by {
        let i2 = if i < p {
            i
        } else {
            i + 1
        };
        let j2 = if j < p {
            j
        } else {
            j + 1
        };
        assert(t[i] == s[i2] && t[j] == s[j2]);
    }
    assert forall|k: Seq<u8>| has_key::<T>(t, k) <==> (k != T::key_of(s[p]) && has_key::<T>(
        s,
        k,
    )) by {
        if has_key::<T>(t, k) {
            let i = choose|i: int| 0 <= i < t.len() && #[trigger] T::key_of(t[i]) == k;
            let i2 = if i < p {
                i
            } else {
                i + 1
            };
            assert(t[i] == s[i2]);
            if k == T::key_of(s[p]) {
                lemma_key_place_unique::<T>(s, i2, p);
            }
        }
        if k != T::key_of(s[p]) && has_key::<T>(s, k) {
            let i = choose|i: int| 0 <= i < s.len() && #[trigger] T::key_of(s[i]) == k;
            let i2 = if i < p {
                i
            } else {
                i - 1
            };
            assert(t[i2] == s[i]);
        }
    }
    assert forall|k: Seq<u8>| k != T::key_of(s[p]) implies lookup::<T>(t, k) == lookup::<T>(
        s,
        k,
    ) by {
        if has_key::<T>(s, k) {
            let i = choose|i: int| 0 <= i < s.len() && #[trigger] T::key_of(s[i]) == k;
            let i2 = if i < p {
                i
            } else {
                i - 1
            };
            assert(t[i2] == s[i]);
            lemma_lookup_at::<T>(t, i2);
        }
    }
}

/// Putting in a list whose keys continue a sorted sequence, by either rule,
/// appends the list.
pub proof fn lemma_put_sorted_list<T: Keyed>(s: Seq<T::V>, list: Seq<T::V>)
    requires
        keys_sorted::<T>(s + list),
    ensures
        put_new_all::<T>(s, list) == s + list,
        put_all::<T>(s, list) == s + list,
    decreases list.len(),
{
    let whole = s + list;
    if list.len() == 0 {
        assert(whole =~= s);
    } else {
        let v = list[0];
        let k = T::key_of(v);
        assert(whole[s.len() as int] == v);
        assert forall|i: int| 0 <= i < s.len() implies lex_lt(#[trigger] T::key_of(s[i]), k) by {
            assert(whole[i] == s[i]);
        }
        if has_key::<T>(s, k) {
            let i = choose|i: int| 0 <= i < s.len() && #[trigger] T::key_of(s[i]) == k;
            lemma_lex_irreflexive(k);
        }
        lemma_rank_is_split::<T>(s, k, s.len() as int);
        let next = s.push(v);
        assert(s.insert(s.len() as int, v) =~= next);
        assert(next + list.drop_first() =~= whole);
        lemma_put_sorted_list::<T>(next, list.drop_first());
    }
}

/// A set of keyed values, held in the order of their keys.
pub struct SortedSet<T> {
    items: Vec<T>,
}

impl<T: Keyed> View for SortedSet<T> {
    type V = Seq<T::V>;

    closed spec fn view(&self) -> Seq<T::V> {
        self.items@.map_values(|x: T| x@)
    }
}

impl<T: Keyed> SortedSet<T> {
    /// The values stand in the strict order of their keys.
    pub open spec fn wf(&self) -> bool {
        keys_sorted::<T>(self@)
    }

    /// The set holds a value with the key `k`.
    pub open spec fn contains_key(&self, k: Seq<u8>) -> bool {
        has_key::<T>(self@, k)
    }

    /// An empty set.
    pub fn new() -> (set: Self)
        ensures
            set@ == Seq::<T::V>::empty(),
            set.wf(),
    {
        let set = SortedSet { items: Vec::new() };
        assert(set@ =~= Seq::<T::V>::empty());
        set
    }

    /// The number of values.
    pub fn len(&self) -> (n: usize)
        ensures
            n == self@.len(),
    {
        self.items.len()
    }

    /// The value at place `i` in key order.
    pub fn get(&self, i: usize) -> (item: &T)
        requires
            i < self@.len(),
        ensures
            item@ == self@[i as int],
    {
        &self.items[i]
    }

    /// Looks for `key` by bisection: whether a value has it, and its rank.
    pub fn search(&self, key: &[u8]) -> (found: (bool, usize))
        requires
            self.wf(),
        ensures
            found.0 == self.contains_key(key@),
            found.1 == rank::<T>(self@, key@),
            found.1 <= self@.len(),
            found.0 ==> found.1 < self@.len() && T::key_of(self@[found.1 as int]) == key@,
            forall|i: int| 0 <= i < found.1 ==> lex_lt(#[trigger] T::key_of(self@[i]), key@),
            forall|i: int|
                found.1 <= i < self@.len() && !(found.0 && i == found.1) ==> lex_lt(
                    key@,
                    #[trigger] T::key_of(self@[i]),
                ),
    {
        let mut lo: usize = 0;
        let mut hi: usize = self.items.len();
        while lo < hi
            invariant
                self.wf(),
                lo <= hi <= self@.len(),
                self@.len() == self.items@.len(),
                forall|i: int| 0 <= i < lo ==> lex_lt(#[trigger] T::key_of(self@[i]), key@),
                forall|i: int| hi <= i < self@.len() ==> lex_lt(key@, #[trigger] T::key_of(self@[i])),
            decreases hi - lo,
        {
            let mid = lo + (hi - lo) / 2;
            let mid_key = self.items[mid].key_bytes();
            assert(mid_key@ == T::key_of(self@[mid as int]));
            match lex_order(mid_key.as_slice(), key) {
                Order::Less => {
                    assert forall|i: int| 0 <= i < mid + 1 implies lex_lt(
                        #[trigger] T::key_of(self@[i]),
                        key@,
                    ) by {
                        if i < mid {
                            lemma_lex_transitive(T::key_of(self@[i]), mid_key@, key@);
                        }
                    }
                    lo = mid + 1;
                },
                Order::Greater => {
                    proof {
                        lemma_lex_total(mid_key@, key@);
                    }
                    assert forall|i: int| mid <= i < self@.len() implies lex_lt(
                        key@,
                        #[trigger] T::key_of(self@[i]),
                    ) by {
                        if mid < i {
                            lemma_lex_transitive(key@, mid_key@, T::key_of(self@[i]));
                        }
                    }
                    hi = mid;
                },
                Order::Equal => {
                    proof {
                        lemma_lookup_at::<T>(self@, mid as int);
                        assert forall|i: int| 0 <= i < mid implies lex_lt(
                            #[trigger] T::key_of(self@[i]),
                            key@,
                        ) by {}
                        assert forall|i: int| mid < i < self@.len() implies lex_lt(
                            key@,
                            #[trigger] T::key_of(self@[i]),
                        ) by {}
                    }
                    return (true, mid);
                },
            }
        }
        proof {
            assert forall|i: int| lo <= i < self@.len() implies !lex_lt(
                #[trigger] T::key_of(self@[i]),
                key@,
            ) by {
                lemma_lex_asymmetric(key@, T::key_of(self@[i]));
            }
            lemma_rank_is_split::<T>(self@, key@, lo as int);
            if has_key::<T>(self@, key@) {
                let i = choose|i: int| 0 <= i < self@.len() && #[trigger] T::key_of(self@[i]) == key@;
                lemma_lex_irreflexive(key@);
            }
        }
        (false, lo)
    }

    /// Tells whether a value has the key `key`.
    pub fn contains(&self, key: &[u8]) -> (found: bool)
        requires
            self.wf(),
        ensures
            found == self.contains_key(key@),
    {
        self.search(key).0
    }

    /// The value that has the key `key`, if there is one.
    pub fn find(&self, key: &[u8]) -> (item: Option<&T>)
        requires
            self.wf(),
        ensures
            match item {
                Some(x) => lookup::<T>(self@, key@) == Some(x@),
                None => lookup::<T>(self@, key@) is None,
            },
    {
        let (found, slot) = self.search(key);
        if found {
            proof {
                lemma_lookup_at::<T>(self@, slot as int);
            }
            Some(&self.items[slot])
        } else {
            None
        }
    }

    /// Puts `item` in, unless a value with its key is there already; then
    /// the set stays as it is and the answer is `false`.
    pub fn insert(&mut self, item: T) -> (inserted: bool)
        requires
            old(self).wf(),
        ensures
            final(self).wf(),
            final(self)@ == put_new::<T>(old(self)@, item@),
            inserted == !old(self).contains_key(T::key_of(item@)),
            inserted ==> final(self)@ == old(self)@.insert(
                rank::<T>(old(self)@, T::key_of(item@)),
                item@,
            ),
            !inserted ==> final(self)@ == old(self)@,
            forall|k: Seq<u8>|
                final(self).contains_key(k) <==> (k == T::key_of(item@) || old(self).contains_key(k)),
            forall|k: Seq<u8>|
                k != T::key_of(item@) ==> lookup::<T>(final(self)@, k) == lookup::<T>(old(self)@, k),
            inserted ==> lookup::<T>(final(self)@, T::key_of(item@)) == Some(item@),
    {
        let key = item.key_bytes();
        let (found, slot) = self.search(key.as_slice());
        if found {
            return false;
        }
        proof {
            lemma_insert_sorted::<T>(self@, item@, slot as int);
        }
        self.items.insert(slot, item);
        assert(self@ =~= old(self)@.insert(slot as int, item@));
        true
    }

    /// Puts `item` in, in place of the value that had its key, if there was
    /// one; that value is handed back.
    pub fn replace(&mut self, item: T) -> (former: Option<T>)
        requires
            old(self).wf(),
        ensures
            final(self).wf(),
            final(self)@ == put::<T>(old(self)@, item@),
            match former {
                Some(x) => lookup::<T>(old(self)@, T::key_of(item@)) == Some(x@),
                None => lookup::<T>(old(self)@, T::key_of(item@)) is None,
            },
            former is Some ==> final(self)@ == old(self)@.update(
                rank::<T>(old(self)@, T::key_of(item@)),
                item@,
            ),
            former is None ==> final(self)@ == old(self)@.insert(
                rank::<T>(old(self)@, T::key_of(item@)),
                item@,
            ),
            forall|k: Seq<u8>|
                final(self).contains_key(k) <==> (k == T::key_of(item@) || old(self).contains_key(k)),
            forall|k: Seq<u8>|
                k != T::key_of(item@) ==> lookup::<T>(final(self)@, k) == lookup::<T>(old(self)@, k),
            lookup::<T>(final(self)@, T::key_of(item@)) == Some(item@),
    {
        let key = item.key_bytes();
        let (found, slot) = self.search(key.as_slice());
        if found {
            proof {
                lemma_lookup_at::<T>(self@, slot as int);
                lemma_remove_sorted::<T>(self@, slot as int);
            }
            let former = self.items.remove(slot);
            let ghost rest = self@;
            assert(rest =~= old(self)@.remove(slot as int));
            proof {
                lemma_insert_sorted::<T>(rest, item@, slot as int);
            }
            self.items.insert(slot, item);
            assert(self@ =~= rest.insert(slot as int, item@));
            assert(self@ =~= old(self)@.update(slot as int, item@));
            Some(former)
        } else {
            proof {
                lemma_insert_sorted::<T>(self@, item@, slot as int);
            }
            self.items.insert(slot, item);
            assert(self@ =~= old(self)@.insert(slot as int, item@));
            None
        }
    }

    /// Takes out the value that has the key `key`, if there is one.
    pub fn remove(&mut self, key: &[u8]) -> (taken: Option<T>)
        requires
            old(self).wf(),
        ensures
            final(self).wf(),
            final(self)@ == without::<T>(old(self)@, key@),
            match taken {
                Some(x) => lookup::<T>(old(self)@, key@) == Some(x@),
                None => lookup::<T>(old(self)@, key@) is None,
            },
            taken is Some ==> final(self)@ == old(self)@.remove(rank::<T>(old(self)@, key@)),
            taken is None ==> final(self)@ == old(self)@,
            forall|k: Seq<u8>|
                final(self).contains_key(k) <==> (k != key@ && old(self).contains_key(k)),
            forall|k: Seq<u8>|
                k != key@ ==> lookup::<T>(final(self)@, k) == lookup::<T>(old(self)@, k),
    {
        let (found, slot) = self.search(key);
        if !found {
            return None;
        }
        proof {
            lemma_lookup_at::<T>(self@, slot as int);
            lemma_remove_sorted::<T>(self@, slot as int);
        }
        let taken = self.items.remove(slot);
        assert(self@ =~= old(self)@.remove(slot as int));
        Some(taken)
    }

    /// Empties the set.
    pub fn clear(&mut self)
        ensures
            final(self)@ == Seq::<T::V>::empty(),
            final(self).wf(),
    {
        self.items.clear();
        assert(self@ =~= Seq::<T::V>::empty());
    }

    /// Hands the values over and leaves the set empty.
    pub fn take(&mut self) -> (taken: Self)
        ensures
            taken@ == old(self)@,
            final(self)@ == Seq::<T::V>::empty(),
            final(self).wf(),
    {
        let mut items: Vec<T> = Vec::new();
        core::mem::swap(&mut self.items, &mut items);
        assert(self@ =~= Seq::<T::V>::empty());
        SortedSet { items }
    }

    /// Puts the values of `items` in, one by one in their order, each
    /// unless a value with its key is there already.
    pub fn insert_all(&mut self, items: Vec<T>)
        requires
            old(self).wf(),
        ensures
            final(self).wf(),
            final(self)@ == put_new_all::<T>(old(self)@, items@.map_values(|x: T| x@)),
    {
        let ghost list = items@.map_values(|x: T| x@);
        assert(list.skip(0) =~= list);
        for item in it: items
            invariant
                self.wf(),
                list == it.seq().map_values(|x: T| x@),
                put_new_all::<T>(old(self)@, list) == put_new_all::<T>(
                    self@,
                    list.skip(it.index() as int),
                ),
        {
            let ghost rest = list.skip(it.index() as int);
            assert(rest[0] == item@);
            assert(rest.drop_first() =~= list.skip(it.index() as int + 1));
            self.insert(item);
        }
    }

    /// Puts the values of `items` in, one by one in their order, each in
    /// place of the value that had its key.
    pub fn replace_all(&mut self, items: Vec<T>)
        requires
            old(self).wf(),
        ensures
            final(self).wf(),
            final(self)@ == put_all::<T>(old(self)@, items@.map_values(|x: T| x@)),
    {
        let ghost list = items@.map_values(|x: T| x@);
        assert(list.skip(0) =~= list);
        for item in it: items
            invariant
                self.wf(),
                list == it.seq().map_values(|x: T| x@),
                put_all::<T>(old(self)@, list) == put_all::<T>(self@, list.skip(it.index() as int)),
        {
            let ghost rest = list.skip(it.index() as int);
            assert(rest[0] == item@);
            assert(rest.drop_first() =~= list.skip(it.index() as int + 1));
            self.replace(item);
        }
    }

    /// Tells whether the values stand in the strict order of their keys.
    pub fn is_wf(&self) -> (ok: bool)
        ensures
            ok == self.wf(),
    {
        let ghost views = self@;
        let n = self.items.len();
        let mut i: usize = 1;
        while i < n
            invariant
                n == self.items@.len(),
                views == self.items@.map_values(|x: T| x@),
                1 <= i,
                forall|a: int, b: int|
                    0 <= a < b < i && b < n ==> lex_lt(
                        #[trigger] T::key_of(views[a]),
                        #[trigger] T::key_of(views[b]),
                    ),
            decreases n - i,
        {
            let before = self.items[i - 1].key_bytes();
            let here = self.items[i].key_bytes();
            if lex_order(before.as_slice(), here.as_slice()) != Order::Less {
                assert(!lex_lt(T::key_of(views[i - 1]), T::key_of(views[i as int])));
                return false;
            }
            assert forall|a: int, b: int| 0 <= a < b < i + 1 && b < n implies lex_lt(
                #[trigger] T::key_of(views[a]),
                #[trigger] T::key_of(views[b]),
            ) by {
                if b == i && a < i - 1 {
                    lemma_lex_transitive(
                        T::key_of(views[a]),
                        T::key_of(views[i - 1]),
                        T::key_of(views[b]),
                    );
                }
            }
            i += 1;
        }
        true
    }

    /// The values, in the order of their keys.
    pub fn into_vec(self) -> (items: Vec<T>)
        ensures
            items@.map_values(|x: T| x@) == self@,
    {
        self.items
    }
}

} // verus!
