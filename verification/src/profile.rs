//! The record as a whole: its owner, what it shows, and how it is saved and restored.

use crate::ledger::LedgerView;
use crate::sorted::{lemma_put_sorted_list, put_all, put_new_all};
use crate::types::{
    Avatar, IdView, OffStorage, StableState, StableStateView, State, StateView,
    TwitterStorage, Xid, XidArgs, XidArgsView, XidView, ID,
};
use vstd::prelude::*;

verus! {

/// The version of the record's interface.
pub const VERSION: u8 = 0;

impl StateView {
    /// What is saved of a record: all it holds, the sets as lists in the
    /// order of their keys.
    pub open spec fn saved(self) -> StableStateView {
        StableStateView {
            pub_key: self.pub_key,
            name: self.name,
            main_id: self.ledger.main_id,
            ids: self.ledger.ids,
            ic_verify: self.ic_verify,
            avatar_url: self.avatar_url,
            avatar: self.avatar,
            twitter_store: self.twitter_store,
            off_store: self.off_store,
        }
    }

    /// The record after everything but the main identity and the avatar was cleared.
    pub open spec fn cleared(self) -> StateView {
        StateView {
            ledger: LedgerView { main_id: self.ledger.main_id, ids: Seq::empty() },
            avatar: self.avatar,
            ..StateView::empty()
        }
    }

    /// The record with a new display name, a new avatar address, or both.
    pub open spec fn renamed(self, args: XidArgsView) -> StateView {
        StateView {
            name: match args.name {
                Some(name) => name,
                None => self.name,
            },
            avatar_url: match args.avatar_url {
                Some(url) => url,
                None => self.avatar_url,
            },
            ..self
        }
    }

    /// The record as it is shown.
    pub open spec fn shown(self) -> XidView {
        XidView {
            pub_key: self.pub_key,
            name: self.name,
            main_id: self.ledger.main_id,
            ids: self.ledger.ids,
            avatar_url: self.avatar_url,
        }
    }
}

impl StableStateView {
    /// The record that a saved state is restored to. Of bound identities
    /// with one key the first stays, of stored contents with one identifier
    /// the last.
    pub open spec fn restored(self) -> StateView {
        StateView {
            pub_key: self.pub_key,
            name: self.name,
            ledger: LedgerView {
                main_id: self.main_id,
                ids: put_new_all::<ID>(Seq::empty(), self.ids),
            },
            ic_verify: self.ic_verify,
            avatar_url: self.avatar_url,
            avatar: self.avatar,
            twitter_store: put_all::<TwitterStorage>(Seq::empty(), self.twitter_store),
            off_store: put_all::<OffStorage>(Seq::empty(), self.off_store),
        }
    }
}

/// Makes `owner`, the text of a principal, the owner of the record.
pub fn init(state: &mut State, owner: String)
    ensures
        final(state)@ == (StateView { pub_key: owner@, ..old(state)@ }),
{
    state.pub_key = owner;
}

/// The version of the record's interface.
pub fn get_version() -> (version: u8)
    ensures
        version == VERSION,
{
    VERSION
}

/// The record as it is shown: owner, display name, main identity, the
/// bound identities in the order of their keys, and the avatar's address.
pub fn get_xid(state: &State) -> (xid: Xid)
    ensures
        xid@ == state@.shown(),
{
    Xid {
        pub_key: state.pub_key.clone(),
        name: state.name.clone(),
        main_id: state.ledger.main(),
        ids: state.ledger.members(),
        avatar_url: state.avatar_url.clone(),
    }
}

/// The main identity; the empty identity where there is none.
pub fn get_main_id(state: &State) -> (id: ID)
    ensures
        id@ == state@.ledger.main_id,
{
    state.ledger.main()
}

/// Sets the display name, the avatar's address, or both.
pub fn set_xid(state: &mut State, args: XidArgs) -> (done: bool)
    ensures
        done,
        final(state)@ == old(state)@.renamed(args@),
{
    match args.name {
        Some(name) => {
            state.name = name;
        },
        None => {},
    }
    match args.avatar_url {
        Some(url) => {
            state.avatar_url = url;
        },
        None => {},
    }
    true
}

/// Replaces the avatar.
pub fn upload_avatar(state: &mut State, avatar: Avatar) -> (done: bool)
    ensures
        done,
        final(state)@ == (StateView { avatar: avatar@, ..old(state)@ }),
{
    state.avatar = avatar;
    true
}

/// Clears the owner, the display name, the bound identities, the pending
/// ticket, the avatar's address and both stores. The main identity and the
/// avatar stay as they are.
pub fn do_clear(state: &mut State)
    ensures
        final(state)@ == old(state)@.cleared(),
        final(state).wf(),
{
    state.pub_key = String::new();
    state.name = String::new();
    state.ledger.ids.clear();
    state.ic_verify = String::new();
    state.avatar_url = String::new();
    state.twitter_store.clear();
    state.off_store.clear();
}

/// Takes the state to be saved, and leaves an empty record behind.
pub fn pre_upgrade(state: &mut State) -> (stable: StableState)
    ensures
        stable@ == old(state)@.saved(),
        final(state)@ == StateView::empty(),
        final(state).wf(),
{
    let mut taken = State::new();
    core::mem::swap(state, &mut taken);
    let ids = taken.ledger.ids.into_vec();
    let twitter_store = taken.twitter_store.into_vec();
    let off_store = taken.off_store.into_vec();
    StableState {
        pub_key: taken.pub_key,
        name: taken.name,
        main_id: taken.ledger.main_id,
        ids,
        ic_verify: taken.ic_verify,
        avatar_url: taken.avatar_url,
        avatar: taken.avatar,
        twitter_store,
        off_store,
    }
}

/// Replaces the record with a saved one. Nothing of what the record held
/// before remains.
pub fn post_upgrade(state: &mut State, stable: StableState)
    ensures
        final(state)@ == stable@.restored(),
        final(state).wf(),
{
    do_clear(state);
    state.pub_key = stable.pub_key;
    state.name = stable.name;
    state.ledger.main_id = stable.main_id;
    state.ledger.ids.insert_all(stable.ids);
    state.ic_verify = stable.ic_verify;
    state.avatar_url = stable.avatar_url;
    state.avatar = stable.avatar;
    state.twitter_store.replace_all(stable.twitter_store);
    state.off_store.replace_all(stable.off_store);
}

/// A record that was saved and restored is the record it was.
pub proof fn law_snapshot_round_trip(state: StateView)
    requires
        state.wf(),
    ensures
        state.saved().restored() == state,
{
    assert(Seq::<IdView>::empty() + state.ledger.ids =~= state.ledger.ids);
    lemma_put_sorted_list::<ID>(Seq::empty(), state.ledger.ids);
    assert(Seq::empty() + state.twitter_store =~= state.twitter_store);
    lemma_put_sorted_list::<TwitterStorage>(Seq::empty(), state.twitter_store);
    assert(Seq::empty() + state.off_store =~= state.off_store);
    lemma_put_sorted_list::<OffStorage>(Seq::empty(), state.off_store);
}

} // verus!
