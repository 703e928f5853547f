//! The two content stores of a record: Twitter posts and off-chain content,
//! each kept under its identifier and listed in the order of the identifiers.

use crate::decimal::{decimal_string, decimal_text};
use crate::sorted::{has_key, lookup, rank};
use crate::types::{
    ContentType, ContentUuid, ContentUuidView, Contents, ContentsView, OffStorage, OffStorageView,
    State, StateView, Storage, StorageView, StoreArg, StoreArgView, TwitterStorage,
    TwitterStorageView, XidError, XidResponse,
};
use vstd::prelude::*;
use vstd::string::*;
use vstd::utf8::encode_utf8;

verus! {

/// Where a listing ends that starts at `start` and asks for `offset`
/// entries of a store that holds `len`.
pub open spec fn listing_end(start: int, offset: int, len: int) -> int {
    if start + offset > len {
        len
    } else {
        start + offset
    }
}

/// The Twitter posts from place `start` up to place `end`, as they are shown.
pub open spec fn twitter_listing(state: StateView, start: int, end: int) -> Seq<StorageView> {
    state.twitter_store.subrange(start, end).map_values(|t: TwitterStorageView| t.storage())
}

/// The off-chain contents from place `start` up to place `end`, as they are shown.
pub open spec fn off_listing(state: StateView, start: int, end: int) -> Seq<StorageView> {
    state.off_store.subrange(start, end).map_values(|o: OffStorageView| o.storage())
}

/// What is stored under one name, as it is shown: one entry, or none.
pub open spec fn stored_under(state: StateView, name: ContentUuidView) -> Seq<StorageView> {
    match name.content_type {
        ContentType::Twitter => match lookup::<TwitterStorage>(
            state.twitter_store,
            encode_utf8(name.uuid),
        ) {
            Some(t) => seq![t.storage()],
            None => Seq::empty(),
        },
        ContentType::OffChain => match lookup::<OffStorage>(
            state.off_store,
            encode_utf8(name.uuid),
        ) {
            Some(o) => seq![o.storage()],
            None => Seq::empty(),
        },
    }
}

/// What is stored under the given names, in the order of the names; a name
/// under which nothing is stored adds nothing.
pub open spec fn stored_under_all(state: StateView, names: Seq<ContentUuidView>) -> Seq<
    StorageView,
>
    decreases names.len(),
{
    if names.len() == 0 {
        Seq::empty()
    } else {
        stored_under_all(state, names.drop_last()) + stored_under(state, names.last())
    }
}

/// The entry that a Twitter post is stored as, uploaded by `owner` at `now`.
pub open spec fn new_twitter_entry(owner: Seq<char>, arg: StoreArgView, now: u64) -> TwitterStorageView
    recommends
        arg.content is TwitterContent,
{
    TwitterStorageView {
        owner,
        uuid: arg.uuid,
        twitter_content: arg.content->TwitterContent_0,
        d_platform: arg.d_platform,
        is_minted: false,
        mint_time: Seq::empty(),
        upload_time: decimal_text(now as nat),
    }
}

/// The entry that an off-chain content is stored as, uploaded by `owner` at `now`.
pub open spec fn new_off_entry(owner: Seq<char>, arg: StoreArgView, now: u64) -> OffStorageView
    recommends
        arg.content is OffChainContent,
{
    OffStorageView {
        owner,
        uuid: arg.uuid,
        off_content: arg.content->OffChainContent_0,
        d_platform: arg.d_platform,
        is_minted: false,
        mint_time: Seq::empty(),
        upload_time: decimal_text(now as nat),
    }
}

/// Something is stored under the name.
pub open spec fn is_stored(state: StateView, content_type: ContentType, uuid: Seq<char>) -> bool {
    match content_type {
        ContentType::Twitter => has_key::<TwitterStorage>(state.twitter_store, encode_utf8(uuid)),
        ContentType::OffChain => has_key::<OffStorage>(state.off_store, encode_utf8(uuid)),
    }
}

/// The kind of a content.
pub open spec fn kind_of(content: ContentsView) -> ContentType {
    match content {
        ContentsView::TwitterContent(_) => ContentType::Twitter,
        ContentsView::OffChainContent(_) => ContentType::OffChain,
    }
}

/// The record after an upload: the content stands in its store at the rank
/// of its identifier, unless the identifier is taken.
pub open spec fn after_upload(state: StateView, arg: StoreArgView, now: u64) -> StateView {
    if is_stored(state, kind_of(arg.content), arg.uuid) {
        state
    } else {
        match arg.content {
            ContentsView::TwitterContent(_) => StateView {
                twitter_store: state.twitter_store.insert(
                    rank::<TwitterStorage>(state.twitter_store, encode_utf8(arg.uuid)),
                    new_twitter_entry(state.pub_key, arg, now),
                ),
                ..state
            },
            ContentsView::OffChainContent(_) => StateView {
                off_store: state.off_store.insert(
                    rank::<OffStorage>(state.off_store, encode_utf8(arg.uuid)),
                    new_off_entry(state.pub_key, arg, now),
                ),
                ..state
            },
        }
    }
}

/// The record after a deletion: the entry under the name is gone, if there was one.
pub open spec fn after_delete(state: StateView, name: ContentUuidView) -> StateView {
    if !is_stored(state, name.content_type, name.uuid) {
        state
    } else {
        match name.content_type {
            ContentType::Twitter => StateView {
                twitter_store: state.twitter_store.remove(
                    rank::<TwitterStorage>(state.twitter_store, encode_utf8(name.uuid)),
                ),
                ..state
            },
            ContentType::OffChain => StateView {
                off_store: state.off_store.remove(
                    rank::<OffStorage>(state.off_store, encode_utf8(name.uuid)),
                ),
                ..state
            },
        }
    }
}

/// The record after an entry was marked as minted at `now`, if there is one
/// under the name.
pub open spec fn after_mint(state: StateView, name: ContentUuidView, now: u64) -> StateView {
    if !is_stored(state, name.content_type, name.uuid) {
        state
    } else {
        match name.content_type {
            ContentType::Twitter => {
                let place = rank::<TwitterStorage>(state.twitter_store, encode_utf8(name.uuid));
                StateView {
                    twitter_store: state.twitter_store.update(
                        place,
                        state.twitter_store[place].minted(decimal_text(now as nat)),
                    ),
                    ..state
                }
            },
            ContentType::OffChain => {
                let place = rank::<OffStorage>(state.off_store, encode_utf8(name.uuid));
                StateView {
                    off_store: state.off_store.update(
                        place,
                        state.off_store[place].minted(decimal_text(now as nat)),
                    ),
                    ..state
                }
            },
        }
    }
}

/// The number of entries in a store.
pub fn get_store_size(state: &State, arg: ContentType) -> (n: usize)
    ensures
        n == match arg {
            ContentType::Twitter => state@.twitter_store.len(),
            ContentType::OffChain => state@.off_store.len(),
        },
{
    match arg {
        ContentType::Twitter => state.twitter_store.len(),
        ContentType::OffChain => state.off_store.len(),
    }
}

/// The entries of one store from place `start` on, `offset` of them at
/// most, in the order of their identifiers.
///
/// A start at or behind the end of the store is out of range. A window
/// that reaches beyond the store ends where the store ends.
pub fn get_store_list(state: &State, arg: ContentType, start: usize, offset: usize) -> (listed:
    Result<Vec<Storage>, XidError>)
    ensures
        match arg {
            ContentType::Twitter => if start >= state@.twitter_store.len() {
                listed matches Err(e) && e == XidError::FieldOutOfRange
            } else {
                listed matches Ok(entries) && entries@.map_values(|s: Storage| s@)
                    == twitter_listing(
                    state@,
                    start as int,
                    listing_end(start as int, offset as int, state@.twitter_store.len() as int),
                )
            },
            ContentType::OffChain => if start >= state@.off_store.len() {
                listed matches Err(e) && e == XidError::FieldOutOfRange
            } else {
                listed matches Ok(entries) && entries@.map_values(|s: Storage| s@) == off_listing(
                    state@,
                    start as int,
                    listing_end(start as int, offset as int, state@.off_store.len() as int),
                )
            },
        },
{
    match arg {
        ContentType::Twitter => {
            let len = state.twitter_store.len();
            if start >= len {
                return Err(XidError::FieldOutOfRange);
            }
            let end = if offset > len - start {
                len
            } else {
                start + offset
            };
            let mut entries: Vec<Storage> = Vec::new();
            let mut i = start;
            while i < end
                invariant
                    start <= i <= end <= state@.twitter_store.len(),
                    entries@.len() == i - start,
                    forall|j: int|
                        0 <= j < entries@.len() ==> entries@[j]@ == state@.twitter_store[start
                            + j].storage(),
                decreases end - i,
            {
                entries.push(state.twitter_store.get(i).storage());
                i += 1;
            }
            assert(entries@.map_values(|s: Storage| s@) =~= twitter_listing(
                state@,
                start as int,
                end as int,
            ));
            Ok(entries)
        },
        ContentType::OffChain => {
            let len = state.off_store.len();
            if start >= len {
                return Err(XidError::FieldOutOfRange);
            }
            let end = if offset > len - start {
                len
            } else {
                start + offset
            };
            let mut entries: Vec<Storage> = Vec::new();
            let mut i = start;
            while i < end
                invariant
                    start <= i <= end <= state@.off_store.len(),
                    entries@.len() == i - start,
                    forall|j: int|
                        0 <= j < entries@.len() ==> entries@[j]@ == state@.off_store[start
                            + j].storage(),
                decreases end - i,
            {
                entries.push(state.off_store.get(i).storage());
                i += 1;
            }
            assert(entries@.map_values(|s: Storage| s@) =~= off_listing(
                state@,
                start as int,
                end as int,
            ));
            Ok(entries)
        },
    }
}

/// The entries stored under the given names, in the order of the names.
pub fn get_store_by_uuid(state: &State, arg: &Vec<ContentUuid>) -> (found: Vec<Storage>)
    requires
        state.wf(),
    ensures
        found@.map_values(|s: Storage| s@) == stored_under_all(
            state@,
            arg@.map_values(|n: ContentUuid| n@),
        ),
{
    let ghost names = arg@.map_values(|n: ContentUuid| n@);
    let mut found: Vec<Storage> = Vec::new();
    let mut i: usize = 0;
    while i < arg.len()
        invariant
            state.wf(),
            i <= arg@.len(),
            names == arg@.map_values(|n: ContentUuid| n@),
            found@.map_values(|s: Storage| s@) == stored_under_all(state@, names.take(i as int)),
        decreases arg@.len() - i,
    {
        let name = &arg[i];
        let ghost before = found@.map_values(|s: Storage| s@);
        assert(names.take(i as int + 1).drop_last() =~= names.take(i as int));
        assert(names.take(i as int + 1).last() == name@);
        match name.content_type {
            ContentType::Twitter => {
                match state.twitter_store.find(name.uuid.as_str().as_bytes()) {
                    Some(entry) => {
                        found.push(entry.storage());
                    },
                    None => {},
                }
            },
            ContentType::OffChain => {
                match state.off_store.find(name.uuid.as_str().as_bytes()) {
                    Some(entry) => {
                        found.push(entry.storage());
                    },
                    None => {},
                }
            },
        }
        assert(found@.map_values(|s: Storage| s@) =~= before + stored_under(state@, name@));
        i += 1;
    }
    assert(names.take(arg@.len() as int) =~= names);
    found
}

/// Stores a content under its identifier, uploaded at `now` by the owner.
/// An identifier that is taken in the content's store is refused.
pub fn upload_store(state: &mut State, arg: StoreArg, now: u64) -> (done: Result<
    XidResponse,
    XidError,
>)
    requires
        old(state).wf(),
    ensures
        final(state).wf(),
        final(state)@ == after_upload(old(state)@, arg@, now),
        done == if is_stored(old(state)@, kind_of(arg@.content), arg@.uuid) {
            Err::<XidResponse, XidError>(XidError::UuidRepeat)
        } else {
            Ok::<XidResponse, XidError>(XidResponse::StoreOk)
        },
{
    match arg.content {
        Contents::TwitterContent(content) => {
            if state.twitter_store.contains(arg.uuid.as_str().as_bytes()) {
                return Err(XidError::UuidRepeat);
            }
            let entry = TwitterStorage {
                owner: state.pub_key.clone(),
                uuid: arg.uuid,
                twitter_content: content,
                d_platform: arg.d_platform,
                is_minted: false,
                mint_time: String::new(),
                upload_time: decimal_string(now),
            };
            state.twitter_store.insert(entry);
            Ok(XidResponse::StoreOk)
        },
        Contents::OffChainContent(content) => {
            if state.off_store.contains(arg.uuid.as_str().as_bytes()) {
                return Err(XidError::UuidRepeat);
            }
            let entry = OffStorage {
                owner: state.pub_key.clone(),
                uuid: arg.uuid,
                off_content: content,
                d_platform: arg.d_platform,
                is_minted: false,
                mint_time: String::new(),
                upload_time: decimal_string(now),
            };
            state.off_store.insert(entry);
            Ok(XidResponse::StoreOk)
        },
    }
}

/// Deletes the entry under a name. A name under which nothing is stored is refused.
pub fn delete_store(state: &mut State, arg: &ContentUuid) -> (done: Result<XidResponse, XidError>)
    requires
        old(state).wf(),
    ensures
        final(state).wf(),
        final(state)@ == after_delete(old(state)@, arg@),
        done == if is_stored(old(state)@, arg@.content_type, arg@.uuid) {
            Ok::<XidResponse, XidError>(XidResponse::DeleteOk)
        } else {
            Err::<XidResponse, XidError>(XidError::UuidNotExist)
        },
{
    let key = arg.uuid.as_str().as_bytes();
    match arg.content_type {
        ContentType::OffChain => match state.off_store.remove(key) {
            Some(_) => Ok(XidResponse::DeleteOk),
            None => Err(XidError::UuidNotExist),
        },
        ContentType::Twitter => match state.twitter_store.remove(key) {
            Some(_) => Ok(XidResponse::DeleteOk),
            None => Err(XidError::UuidNotExist),
        },
    }
}

/// Marks the entry under a name as minted at `now`. A name under which
/// nothing is stored is refused.
pub fn set_mint_status(state: &mut State, arg: &ContentUuid, now: u64) -> (done: Result<
    XidResponse,
    XidError,
>)
    requires
        old(state).wf(),
    ensures
        final(state).wf(),
        final(state)@ == after_mint(old(state)@, arg@, now),
        done == if is_stored(old(state)@, arg@.content_type, arg@.uuid) {
            Ok::<XidResponse, XidError>(XidResponse::MintOk)
        } else {
            Err::<XidResponse, XidError>(XidError::UuidNotExist)
        },
{
    let key = arg.uuid.as_str().as_bytes();
    match arg.content_type {
        ContentType::OffChain => {
            let (found, place) = state.off_store.search(key);
            if !found {
                return Err(XidError::UuidNotExist);
            }
            let entry = state.off_store.get(place);
            let minted = OffStorage {
                owner: entry.owner.clone(),
                uuid: entry.uuid.clone(),
                off_content: entry.off_content.duplicate(),
                d_platform: entry.d_platform.clone(),
                is_minted: true,
                mint_time: decimal_string(now),
                upload_time: entry.upload_time.clone(),
            };
            state.off_store.replace(minted);
            Ok(XidResponse::MintOk)
        },
        ContentType::Twitter => {
            let (found, place) = state.twitter_store.search(key);
            if !found {
                return Err(XidError::UuidNotExist);
            }
            let entry = state.twitter_store.get(place);
            let minted = TwitterStorage {
                owner: entry.owner.clone(),
                uuid: entry.uuid.clone(),
                twitter_content: entry.twitter_content.duplicate(),
                d_platform: entry.d_platform.clone(),
                is_minted: true,
                mint_time: decimal_string(now),
                upload_time: entry.upload_time.clone(),
            };
            state.twitter_store.replace(minted);
            Ok(XidResponse::MintOk)
        },
    }
}

} // verus!
