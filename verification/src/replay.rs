//! The replay guard: which one-time message identifiers were used.

use crate::sorted::{has_key, keys_sorted, Keyed, SortedSet};
use crate::text::lemma_encode_injective;
use vstd::prelude::*;
use vstd::string::*;
use vstd::utf8::encode_utf8;

verus! {

/// The identifiers that were consumed, each once.
pub struct ReplayGuard {
    consumed: SortedSet<String>,
}

/// A text is in a list exactly when the list holds its bytes as a key.
pub proof fn lemma_text_membership(texts: Seq<Seq<char>>, id: Seq<char>)
    ensures
        has_key::<String>(texts, encode_utf8(id)) <==> texts.contains(id),
{
    if has_key::<String>(texts, encode_utf8(id)) {
        let i = choose|i: int|
            0 <= i < texts.len() && #[trigger] String::key_of(texts[i]) == encode_utf8(id);
        lemma_encode_injective(texts[i], id);
        assert(texts[i] == id);
    }
    if texts.contains(id) {
        let i = choose|i: int| 0 <= i < texts.len() && texts[i] == id;
        assert(String::key_of(texts[i]) == encode_utf8(id));
    }
}

/// Texts that stand in the strict order of their bytes are all different.
pub proof fn lemma_sorted_texts_distinct(texts: Seq<Seq<char>>)
    requires
        keys_sorted::<String>(texts),
    ensures
        texts.no_duplicates(),
{
    assert forall|i: int, j: int| 0 <= i < texts.len() && 0 <= j < texts.len() && i != j implies texts[i]
        != texts[j] by {
        if texts[i] == texts[j] {
            assert(String::key_of(texts[i]) == String::key_of(texts[j]));
            crate::sorted::lemma_key_place_unique::<String>(texts, i, j);
        }
    }
}

/// The identifiers consumed once each of `ids` was offered in turn.
pub open spec fn consumed_after(consumed: Set<Seq<char>>, ids: Seq<Seq<char>>) -> Set<Seq<char>>
    decreases ids.len(),
{
    if ids.len() == 0 {
        consumed
    } else {
        consumed_after(consumed.insert(ids[0]), ids.drop_first())
    }
}

impl View for ReplayGuard {
    type V = Set<Seq<char>>;

    closed spec fn view(&self) -> Set<Seq<char>> {
        self.consumed@.to_set()
    }
}

impl ReplayGuard {
    /// The identifiers are held in order, none twice.
    pub closed spec fn wf(&self) -> bool {
        self.consumed.wf()
    }

    /// Tells whether the identifiers are held in order.
    pub fn is_wf(&self) -> (ok: bool)
        ensures
            ok == self.wf(),
    {
        self.consumed.is_wf()
    }

    /// A guard that has seen nothing.
    pub fn new() -> (guard: ReplayGuard)
        ensures
            guard@ == Set::<Seq<char>>::empty(),
            guard.wf(),
    {
        let guard = ReplayGuard { consumed: SortedSet::new() };
        assert(guard@ =~= Set::<Seq<char>>::empty());
        guard
    }

    /// Tells whether `id` was consumed.
    pub fn contains(&self, id: &str) -> (seen: bool)
        requires
            self.wf(),
        ensures
            seen == self@.contains(id@),
    {
        proof {
            lemma_text_membership(self.consumed@, id@);
        }
        self.consumed.contains(id.as_bytes())
    }

    /// Consumes `id`: `true` the first time it is offered, `false` ever after.
    pub fn check_and_consume(&mut self, id: &str) -> (fresh: bool)
        requires
            old(self).wf(),
        ensures
            final(self).wf(),
            fresh == !old(self)@.contains(id@),
            final(self)@ == old(self)@.insert(id@),
    {
        proof {
            lemma_text_membership(self.consumed@, id@);
        }
        let fresh = self.consumed.insert(id.to_owned());
        proof {
            assert forall|t: Seq<char>| self@.contains(t) <==> old(self)@.insert(id@).contains(
                t,
            ) by {
                lemma_text_membership(self.consumed@, t);
                lemma_text_membership(old(self).consumed@, t);
                lemma_encode_injective(t, id@);
                assert(self.consumed.contains_key(encode_utf8(t)) <==> (encode_utf8(t)
                    == encode_utf8(id@) || old(self).consumed.contains_key(encode_utf8(t))));
            }
            assert(self@ =~= old(self)@.insert(id@));
        }
        fresh
    }

    /// The number of identifiers consumed.
    pub fn len(&self) -> (n: usize)
        requires
            self.wf(),
        ensures
            self@.finite(),
            n == self@.len(),
    {
        proof {
            lemma_sorted_texts_distinct(self.consumed@);
            self.consumed@.unique_seq_to_set();
        }
        self.consumed.len()
    }

    /// Forgets every identifier.
    pub fn clear(&mut self)
        ensures
            final(self)@ == Set::<Seq<char>>::empty(),
            final(self).wf(),
    {
        self.consumed.clear();
        assert(self@ =~= Set::<Seq<char>>::empty());
    }

    /// Hands the identifiers over, in the order of their bytes, and forgets them.
    pub fn take(&mut self) -> (ids: Vec<String>)
        ensures
            ids.deep_view().to_set() == old(self)@,
            old(self).wf() ==> keys_sorted::<String>(ids.deep_view()),
            final(self)@ == Set::<Seq<char>>::empty(),
            final(self).wf(),
    {
        let taken = self.consumed.take();
        assert(self@ =~= Set::<Seq<char>>::empty());
        let ids = taken.into_vec();
        assert(ids.deep_view() =~= old(self).consumed@);
        ids
    }

    /// A guard that has consumed the identifiers of `ids`, and no others.
    pub fn from_vec(ids: Vec<String>) -> (guard: ReplayGuard)
        ensures
            guard.wf(),
            guard@ == ids.deep_view().to_set(),
    {
        let mut guard = ReplayGuard::new();
        let mut ids = ids;
        let ghost all = ids.deep_view();
        while ids.len() > 0
            invariant
                guard.wf(),
                ids.deep_view().len() <= all.len(),
                ids.deep_view() == all.take(ids.deep_view().len() as int),
                guard@ == all.skip(ids.deep_view().len() as int).to_set(),
            decreases ids.len(),
        {
            let ghost before = ids.deep_view();
            let id = ids.pop().unwrap();
            assert(ids.deep_view() =~= before.drop_last());
            assert(id@ == before.last());
            guard.check_and_consume(id.as_str());
            proof {
                let n = ids.deep_view().len() as int;
                let here = all.skip(n);
                let rest = all.skip(n + 1);
                assert(here =~= seq![all[n]] + rest);
                assert(all[n] == id@);
                assert(ids.deep_view() =~= all.take(n));
                assert forall|t: Seq<char>| guard@.contains(t) <==> here.to_set().contains(t) by {
                    assert(guard@.contains(t) <==> (t == id@ || rest.contains(t)));
                    if rest.contains(t) {
                        let j = choose|j: int| 0 <= j < rest.len() && rest[j] == t;
                        assert(here[j + 1] == t);
                    }
                    if t == id@ {
                        assert(here[0] == t);
                    }
                    if here.contains(t) {
                        let j = choose|j: int| 0 <= j < here.len() && here[j] == t;
                        if j > 0 {
                            assert(rest[j - 1] == t);
                        }
                    }
                }
                assert(guard@ =~= all.skip(n).to_set());
            }
        }
        assert(all.skip(0) =~= all);
        guard
    }
}

/// The guard only grows: whatever is offered later, what was consumed stays consumed.
pub proof fn law_consumed_stays(consumed: Set<Seq<char>>, later: Seq<Seq<char>>, id: Seq<char>)
    requires
        consumed.contains(id),
    ensures
        consumed_after(consumed, later).contains(id),
    decreases later.len(),
{
    if later.len() > 0 {
        law_consumed_stays(consumed.insert(later[0]), later.drop_first(), id);
    }
}

/// An identifier is fresh once only: after it was offered, and whatever was
/// offered since, it counts as consumed.
pub proof fn law_fresh_once(consumed: Set<Seq<char>>, id: Seq<char>, later: Seq<Seq<char>>)
    ensures
        consumed_after(consumed.insert(id), later).contains(id),
{
    law_consumed_stays(consumed.insert(id), later, id);
}

} // verus!
