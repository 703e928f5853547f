//! The identity ledger: the main identity and the set of bound identities.

use crate::sorted::{
    has_key, keys_sorted, lemma_insert_sorted, lemma_lookup_at, lemma_remove_sorted, rank, Keyed,
    SortedSet,
};
use crate::text::{lemma_encode_concat, lemma_encode_injective};
use crate::types::{IdView, ID};
use vstd::prelude::*;

verus! {

/// Why the ledger refused a change.
#[derive(Clone, Copy, Debug, PartialEq, Eq, Structural)]
pub enum LedgerError {
    /// The identity is bound already.
    AlreadyBound,
    /// The identity is not bound.
    NotFound,
}

/// The main identity and the bound identities of one owner.
pub struct IdentityLedger {
    pub main_id: ID,
    pub ids: SortedSet<ID>,
}

/// What a ledger holds: the main identity, and the bound identities in the
/// order of their keys.
pub struct LedgerView {
    pub main_id: IdView,
    pub ids: Seq<IdView>,
}

impl LedgerView {
    /// The ledger with nothing bound and no main identity.
    pub open spec fn empty() -> LedgerView {
        LedgerView { main_id: IdView::empty(), ids: Seq::empty() }
    }

    /// The bound identities stand in the strict order of their keys, so none
    /// occurs twice.
    pub open spec fn wf(self) -> bool {
        keys_sorted::<ID>(self.ids)
    }

    /// An identity with the key of `id` is bound.
    pub open spec fn contains(self, id: IdView) -> bool {
        has_key::<ID>(self.ids, id.key())
    }

    /// A main identity, where there is one, is among the bound identities.
    pub open spec fn main_is_bound(self) -> bool {
        !self.main_id.is_unset() ==> self.contains(self.main_id)
    }

    /// The ledger after `id` was bound; the same ledger where it was bound before.
    pub open spec fn bind(self, id: IdView) -> LedgerView {
        if self.contains(id) {
            self
        } else {
            LedgerView {
                main_id: if self.main_id.is_unset() {
                    id
                } else {
                    self.main_id
                },
                ids: self.ids.insert(rank::<ID>(self.ids, id.key()), id),
            }
        }
    }

    /// The ledger after `id` was unbound; the same ledger where it was not bound.
    pub open spec fn unbind(self, id: IdView) -> LedgerView {
        if !self.contains(id) {
            self
        } else {
            LedgerView {
                main_id: if self.main_id.key() == id.key() {
                    IdView::empty()
                } else {
                    self.main_id
                },
                ids: self.ids.remove(rank::<ID>(self.ids, id.key())),
            }
        }
    }

    /// The ledger after `id` became the main identity; the same ledger where
    /// it is not bound.
    pub open spec fn change_main(self, id: IdView) -> LedgerView {
        if !self.contains(id) {
            self
        } else {
            LedgerView { main_id: id, ids: self.ids }
        }
    }
}

impl View for IdentityLedger {
    type V = LedgerView;

    open spec fn view(&self) -> LedgerView {
        LedgerView { main_id: self.main_id@, ids: self.ids@ }
    }
}

impl IdentityLedger {
    /// The bound identities are in order: what every operation needs and keeps.
    pub open spec fn wf(&self) -> bool {
        self@.wf()
    }

    /// A ledger with nothing bound and no main identity.
    pub fn new() -> (ledger: IdentityLedger)
        ensures
            ledger@ == LedgerView::empty(),
            ledger.wf(),
            ledger@.main_is_bound(),
    {
        IdentityLedger { main_id: ID::empty(), ids: SortedSet::new() }
    }

    /// Tells whether the bound identities are in order.
    pub fn is_wf(&self) -> (ok: bool)
        ensures
            ok == self.wf(),
    {
        self.ids.is_wf()
    }

    /// Tells whether an identity with the key of `id` is bound.
    pub fn contains(&self, id: &ID) -> (bound: bool)
        requires
            self.wf(),
        ensures
            bound == self@.contains(id@),
    {
        let key = id.key_bytes();
        self.ids.contains(key.as_slice())
    }

    /// Binds `id`, and makes it the main identity where there was none.
    /// An identity that is bound already is refused, and nothing changes.
    pub fn bind(&mut self, id: ID) -> (done: Result<(), LedgerError>)
        requires
            old(self).wf(),
        ensures
            final(self).wf(),
            final(self)@ == old(self)@.bind(id@),
            done == if old(self)@.contains(id@) {
                Err::<(), LedgerError>(LedgerError::AlreadyBound)
            } else {
                Ok::<(), LedgerError>(())
            },
            final(self)@.contains(id@),
            old(self)@.main_is_bound() ==> final(self)@.main_is_bound(),
    {
        if self.contains(&id) {
            return Err(LedgerError::AlreadyBound);
        }
        if self.main_id.is_unset() {
            self.main_id = id.duplicate();
        }
        self.ids.insert(id);
        assert(self.ids.contains_key(id@.key()));
        assert(old(self)@.main_is_bound() ==> self@.main_is_bound()) by {
            if old(self)@.main_is_bound() && !self.main_id@.is_unset() {
                assert(self.ids.contains_key(self.main_id@.key()));
            }
        }
        Ok(())
    }

    /// Unbinds the identity with the key of `id`. Where it was the main
    /// identity there is none afterwards: no other takes its place. An identity
    /// that is not bound is refused, and nothing changes.
    pub fn unbind(&mut self, id: &ID) -> (done: Result<(), LedgerError>)
        requires
            old(self).wf(),
        ensures
            final(self).wf(),
            final(self)@ == old(self)@.unbind(id@),
            done == if old(self)@.contains(id@) {
                Ok::<(), LedgerError>(())
            } else {
                Err::<(), LedgerError>(LedgerError::NotFound)
            },
            !final(self)@.contains(id@),
            old(self)@.main_is_bound() ==> final(self)@.main_is_bound(),
    {
        let key = id.key_bytes();
        let taken = self.ids.remove(key.as_slice());
        assert(!self.ids.contains_key(id@.key()));
        match taken {
            None => Err(LedgerError::NotFound),
            Some(_) => {
                if self.main_id == *id {
                    self.main_id = ID::empty();
                }
                assert(old(self)@.main_is_bound() ==> self@.main_is_bound()) by {
                    if old(self)@.main_is_bound() && !self.main_id@.is_unset() {
                        assert(old(self).ids.contains_key(self.main_id@.key()));
                        assert(self.ids.contains_key(self.main_id@.key()));
                    }
                }
                Ok(())
            },
        }
    }

    /// Makes `id` the main identity. An identity that is not bound is
    /// refused, and nothing changes. The bound identities stay as they are.
    pub fn change_main(&mut self, id: ID) -> (done: Result<(), LedgerError>)
        requires
            old(self).wf(),
        ensures
            final(self).wf(),
            final(self)@ == old(self)@.change_main(id@),
            done == if old(self)@.contains(id@) {
                Ok::<(), LedgerError>(())
            } else {
                Err::<(), LedgerError>(LedgerError::NotFound)
            },
            final(self)@.ids == old(self)@.ids,
            old(self)@.main_is_bound() ==> final(self)@.main_is_bound(),
    {
        if self.contains(&id) {
            self.main_id = id;
            Ok(())
        } else {
            Err(LedgerError::NotFound)
        }
    }

    /// A copy of the main identity; the empty identity where there is none.
    pub fn main(&self) -> (id: ID)
        ensures
            id@ == self@.main_id,
    {
        self.main_id.duplicate()
    }

    /// Copies of the bound identities, in the order of their keys.
    pub fn members(&self) -> (ids: Vec<ID>)
        ensures
            ids@.map_values(|id: ID| id@) == self@.ids,
    {
        let mut ids: Vec<ID> = Vec::new();
        let n = self.ids.len();
        let mut i: usize = 0;
        while i < n
            invariant
                n == self.ids@.len(),
                i <= n,
                ids@.len() == i,
                forall|j: int| 0 <= j < i ==> ids@[j]@ == self.ids@[j],
            decreases n - i,
        {
            ids.push(self.ids.get(i).duplicate());
            i += 1;
        }
        assert(ids@.map_values(|id: ID| id@) =~= self.ids@);
        ids
    }
}

/// Binding an identity a second time is refused as bound already and changes nothing.
pub proof fn law_bind_twice(ledger: LedgerView, id: IdView)
    requires
        ledger.wf(),
    ensures
        ledger.bind(id).wf(),
        ledger.bind(id).contains(id),
        ledger.bind(id).bind(id) == ledger.bind(id),
{
    if !ledger.contains(id) {
        lemma_bind_inserts(ledger, id);
    }
}

/// On the empty ledger a bound identity becomes the main identity and the only member.
pub proof fn law_bind_on_empty(id: IdView)
    ensures
        !LedgerView::empty().contains(id),
        LedgerView::empty().bind(id).main_id == id,
        LedgerView::empty().bind(id).ids == seq![id],
{
    let ledger = LedgerView::empty();
    assert(rank::<ID>(ledger.ids, id.key()) == 0);
    assert(ledger.ids.insert(0, id) =~= seq![id]);
}

/// A binding never replaces a main identity: where there is one, it stays
/// as it was, in all three texts.
pub proof fn law_bind_keeps_main(ledger: LedgerView, id: IdView)
    requires
        !ledger.main_id.is_unset(),
    ensures
        ledger.bind(id).main_id == ledger.main_id,
{
}

/// Unbinding the main identity leaves the ledger without one, whatever else
/// is bound: the other members stay, and none of them is promoted.
pub proof fn law_unbind_main(ledger: LedgerView)
    requires
        ledger.wf(),
        ledger.contains(ledger.main_id),
    ensures
        ledger.unbind(ledger.main_id).main_id == IdView::empty(),
        ledger.unbind(ledger.main_id).ids.len() == ledger.ids.len() - 1,
        forall|other: IdView|
            other.key() != ledger.main_id.key() ==> (ledger.unbind(ledger.main_id).contains(other)
                <==> ledger.contains(other)),
{
    let key = ledger.main_id.key();
    let i = choose|i: int| 0 <= i < ledger.ids.len() && #[trigger] ID::key_of(ledger.ids[i]) == key;
    lemma_lookup_at::<ID>(ledger.ids, i);
    lemma_remove_sorted::<ID>(ledger.ids, i);
}

/// Every operation keeps the bound identities in order and a main identity among them.
pub proof fn law_ledger_invariant(ledger: LedgerView, id: IdView)
    requires
        ledger.wf(),
        ledger.main_is_bound(),
    ensures
        ledger.bind(id).wf() && ledger.bind(id).main_is_bound(),
        ledger.unbind(id).wf() && ledger.unbind(id).main_is_bound(),
        ledger.change_main(id).wf() && ledger.change_main(id).main_is_bound(),
{
    if !ledger.contains(id) {
        lemma_bind_inserts(ledger, id);
    } else {
        let i = choose|i: int| 0 <= i < ledger.ids.len() && #[trigger] ID::key_of(ledger.ids[i]) == id.key();
        lemma_lookup_at::<ID>(ledger.ids, i);
        lemma_remove_sorted::<ID>(ledger.ids, i);
    }
}

/// Two identities have the same key exactly when platform and identity,
/// written one after the other, give the same text: `("ab", "c")` and
/// `("a", "bc")` are one identity.
pub proof fn law_key_is_concatenation(a: IdView, b: IdView)
    ensures
        a.key() == b.key() <==> a.platform + a.identity == b.platform + b.identity,
{
    lemma_encode_concat(a.platform, a.identity);
    lemma_encode_concat(b.platform, b.identity);
    lemma_encode_injective(a.platform + a.identity, b.platform + b.identity);
}

/// Binding an identity that is not bound puts it in at the rank of its key.
proof fn lemma_bind_inserts(ledger: LedgerView, id: IdView)
    requires
        ledger.wf(),
        !ledger.contains(id),
    ensures
        ledger.bind(id).wf(),
        forall|k: Seq<u8>|
            has_key::<ID>(ledger.bind(id).ids, k) <==> (k == id.key() || has_key::<ID>(
                ledger.ids,
                k,
            )),
{
    let s = ledger.ids;
    let k = id.key();
    let p = rank::<ID>(s, k);
    crate::sorted::lemma_rank_splits::<ID>(s, k);
    lemma_insert_sorted::<ID>(s, id, p);
}

} // verus!
