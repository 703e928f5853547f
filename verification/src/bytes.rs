//! Byte strings and their lexicographic order.
//!
//! Text is ordered the way `str` orders it: by its UTF-8 bytes, position by
//! position, a proper prefix coming first.

use vstd::prelude::*;

verus! {

/// The outcome of comparing two byte strings.
#[derive(Clone, Copy, Debug, PartialEq, Eq, Structural)]
pub enum Order {
    Less,
    Equal,
    Greater,
}

/// `a` comes strictly before `b` in lexicographic order.
pub open spec fn lex_lt(a: Seq<u8>, b: Seq<u8>) -> bool
    decreases a.len(),
{
    if b.len() == 0 {
        false
    } else if a.len() == 0 {
        true
    } else if a[0] != b[0] {
        a[0] < b[0]
    } else {
        lex_lt(a.drop_first(), b.drop_first())
    }
}

/// How `a` stands to `b` in lexicographic order.
pub open spec fn lex_order_of(a: Seq<u8>, b: Seq<u8>) -> Order {
    if lex_lt(a, b) {
        Order::Less
    } else if a == b {
        Order::Equal
    } else {
        Order::Greater
    }
}

/// No byte string comes before itself.
pub proof fn lemma_lex_irreflexive(a: Seq<u8>)
    ensures
        !lex_lt(a, a),
    decreases a.len(),
{
    if a.len() > 0 {
        lemma_lex_irreflexive(a.drop_first());
    }
}

/// The order is transitive.
pub proof fn lemma_lex_transitive(a: Seq<u8>, b: Seq<u8>, c: Seq<u8>)
    requires
        lex_lt(a, b),
        lex_lt(b, c),
    ensures
        lex_lt(a, c),
    decreases a.len(),
{
    if a.len() > 0 && a[0] == b[0] && b[0] == c[0] {
        lemma_lex_transitive(a.drop_first(), b.drop_first(), c.drop_first());
    }
}

/// Of two byte strings one comes first, or they are the same.
pub proof fn lemma_lex_total(a: Seq<u8>, b: Seq<u8>)
    ensures
        lex_lt(a, b) || a == b || lex_lt(b, a),
    decreases a.len(),
{
    if a.len() == 0 || b.len() == 0 {
        if a.len() == 0 && b.len() == 0 {
            assert(a =~= b);
        }
    } else if a[0] == b[0] {
        lemma_lex_total(a.drop_first(), b.drop_first());
        if a.drop_first() == b.drop_first() {
            assert(a =~= seq![a[0]] + a.drop_first());
            assert(b =~= seq![b[0]] + b.drop_first());
        }
    }
}

/// Two byte strings are never each before the other.
pub proof fn lemma_lex_asymmetric(a: Seq<u8>, b: Seq<u8>)
    requires
        lex_lt(a, b),
    ensures
        !lex_lt(b, a),
        a != b,
{
    lemma_lex_irreflexive(a);
    if lex_lt(b, a) {
        lemma_lex_transitive(a, b, a);
    }
}

/// A shared prefix does not matter to the order.
pub proof fn lemma_lex_skip_common(a: Seq<u8>, b: Seq<u8>, n: int)
    requires
        0 <= n <= a.len(),
        n <= b.len(),
        forall|j: int| 0 <= j < n ==> a[j] == b[j],
    ensures
        lex_lt(a, b) == lex_lt(a.skip(n), b.skip(n)),
    decreases n,
{
    if n == 0 {
        assert(a.skip(0) =~= a);
        assert(b.skip(0) =~= b);
    } else {
        let a1 = a.drop_first();
        let b1 = b.drop_first();
        assert forall|j: int| 0 <= j < n - 1 implies a1[j] == b1[j] by {
            assert(a1[j] == a[j + 1]);
            assert(b1[j] == b[j + 1]);
        }
        lemma_lex_skip_common(a1, b1, n - 1);
        assert(a1.skip(n - 1) =~= a.skip(n));
        assert(b1.skip(n - 1) =~= b.skip(n));
        assert(a[0] == b[0]);
    }
}

/// Compares two byte strings lexicographically.
pub fn lex_order(a: &[u8], b: &[u8]) -> (order: Order)
    ensures
        order == lex_order_of(a@, b@),
{
    let mut i: usize = 0;
    while i < a.len() && i < b.len()
        invariant
            i <= a@.len(),
            i <= b@.len(),
            forall|j: int| 0 <= j < i ==> a@[j] == b@[j],
        decreases a@.len() - i,
    {
        if a[i] != b[i] {
            proof {
                lemma_lex_skip_common(a@, b@, i as int);
                if a@[i as int] > b@[i as int] {
                    lemma_lex_skip_common(b@, a@, i as int);
                    lemma_lex_asymmetric(b@, a@);
                }
            }
            return if a[i] < b[i] {
                Order::Less
            } else {
                Order::Greater
            };
        }
        i += 1;
    }
    proof {
        lemma_lex_skip_common(a@, b@, i as int);
        lemma_lex_skip_common(b@, a@, i as int);
        if a@.len() == b@.len() {
            assert(a@ =~= b@);
            lemma_lex_irreflexive(a@);
        } else if a@.len() > b@.len() {
            lemma_lex_asymmetric(b@, a@);
        }
    }
    if a.len() < b.len() {
        Order::Less
    } else if a.len() == b.len() {
        Order::Equal
    } else {
        Order::Greater
    }
}

/// Tells whether two byte strings are the same.
pub fn bytes_eq(a: &[u8], b: &[u8]) -> (same: bool)
    ensures
        same == (a@ == b@),
{
    if a.len() != b.len() {
        return false;
    }
    let mut i: usize = 0;
    while i < a.len()
        invariant
            a@.len() == b@.len(),
            i <= a@.len(),
            forall|j: int| 0 <= j < i ==> a@[j] == b@[j],
        decreases a@.len() - i,
    {
        if a[i] != b[i] {
            return false;
        }
        i += 1;
    }
    assert(a@ =~= b@);
    true
}

/// Appends the bytes of `tail` to `buf`.
pub fn append_bytes(buf: &mut Vec<u8>, tail: &[u8])
    ensures
        final(buf)@ == old(buf)@ + tail@,
{
    let mut i: usize = 0;
    while i < tail.len()
        invariant
            i <= tail@.len(),
            buf@ == old(buf)@ + tail@.take(i as int),
        decreases tail@.len() - i,
    {
        buf.push(tail[i]);
        assert(tail@.take(i as int + 1) =~= tail@.take(i as int).push(tail@[i as int]));
        i += 1;
    }
    assert(tail@.take(tail@.len() as int) =~= tail@);
}

} // verus!
