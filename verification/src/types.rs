//! The identity record's data: identities, results, and the owner's state.

use crate::bytes::{
    append_bytes, lemma_lex_irreflexive, lex_lt, lex_order, lex_order_of, Order,
};
use crate::ledger::{IdentityLedger, LedgerView};
use crate::sorted::{keys_sorted, Keyed, SortedSet};
use crate::text::{duplicate_bytes, duplicate_texts};
use core::cmp::Ordering;
use vstd::prelude::*;
use vstd::std_specs::cmp::{PartialEqSpecImpl, PartialOrdSpecImpl};
use vstd::utf8::encode_utf8;

verus! {

/// Why a request on the identity record failed.
#[derive(Clone, Copy, Debug, PartialEq, Eq, Structural)]
pub enum XidError {
    DataNotExist,
    UuidRepeat,
    UuidNotExist,
    IDNotExist,
    MainIdBan,
    FieldOutOfRange,
    XidNotExist,
    XidCNoNameErr,
}

/// What a request on the identity record achieved.
#[derive(Clone, Copy, Debug, PartialEq, Eq, Structural)]
pub enum XidResponse {
    VerifyOk,
    StoreOk,
    DeleteOk,
    MintOk,
    ChangeIdOk,
}

/// Why the registry turned a request down.
#[allow(non_camel_case_types)]
#[derive(Clone, Copy, Debug, PartialEq, Eq, Structural)]
pub enum XidCenterError {
    Invalid_Operation,
    Invalid_Platform,
    NotXidOwner,
    XidNotExist,
    IDExist,
    IDNotExist,
}

/// An identity on some platform, and when it was bound.
///
/// Two identities are the same, and are ordered, by the bytes of `platform`
/// followed by those of `identity`; `bind_time` plays no part.
#[derive(Clone, Debug)]
pub struct ID {
    pub platform: String,
    pub identity: String,
    pub bind_time: String,
}

/// The texts of an [`ID`].
pub struct IdView {
    pub platform: Seq<char>,
    pub identity: Seq<char>,
    pub bind_time: Seq<char>,
}

impl IdView {
    /// The bytes by which an identity is found: its platform's, then its identity's.
    pub open spec fn key(self) -> Seq<u8> {
        encode_utf8(self.platform) + encode_utf8(self.identity)
    }

    /// Platform and identity are both empty: this is the empty identity, or
    /// one that equals it. As a main identity it stands for "none".
    pub open spec fn is_unset(self) -> bool {
        self.platform.len() == 0 && self.identity.len() == 0
    }

    /// The identity whose three texts are empty.
    pub open spec fn empty() -> IdView {
        IdView { platform: Seq::empty(), identity: Seq::empty(), bind_time: Seq::empty() }
    }
}

impl View for ID {
    type V = IdView;

    open spec fn view(&self) -> IdView {
        IdView { platform: self.platform@, identity: self.identity@, bind_time: self.bind_time@ }
    }
}

impl Keyed for ID {
    open spec fn key_of(v: IdView) -> Seq<u8> {
        v.key()
    }

    fn key_bytes(&self) -> (k: Vec<u8>) {
        let mut key: Vec<u8> = Vec::new();
        append_bytes(&mut key, self.platform.as_str().as_bytes());
        append_bytes(&mut key, self.identity.as_str().as_bytes());
        key
    }
}

impl ID {
    /// The identity whose three texts are empty.
    pub fn empty() -> (id: ID)
        ensures
            id@ == IdView::empty(),
    {
        ID { platform: String::new(), identity: String::new(), bind_time: String::new() }
    }

    /// A copy with the same three texts.
    pub fn duplicate(&self) -> (id: ID)
        ensures
            id@ == self@,
    {
        ID {
            platform: self.platform.clone(),
            identity: self.identity.clone(),
            bind_time: self.bind_time.clone(),
        }
    }

    /// Tells whether platform and identity are both empty.
    pub fn is_unset(&self) -> (unset: bool)
        ensures
            unset == self@.is_unset(),
    {
        self.platform.as_str().is_empty() && self.identity.as_str().is_empty()
    }

    /// How this identity's key stands to the other's.
    pub fn key_order(&self, other: &ID) -> (order: Order)
        ensures
            order == lex_order_of(self@.key(), other@.key()),
    {
        let mine = self.key_bytes();
        let theirs = other.key_bytes();
        lex_order(mine.as_slice(), theirs.as_slice())
    }

    /// The order of two identities: that of their keys.
    pub fn cmp(&self, other: &ID) -> (order: Ordering)
        ensures
            order == key_ordering(self@.key(), other@.key()),
    {
        match self.key_order(other) {
            Order::Less => Ordering::Less,
            Order::Equal => Ordering::Equal,
            Order::Greater => Ordering::Greater,
        }
    }
}

/// The order of two keys in the terms of `core::cmp`.
pub open spec fn key_ordering(a: Seq<u8>, b: Seq<u8>) -> Ordering {
    if lex_lt(a, b) {
        Ordering::Less
    } else if a == b {
        Ordering::Equal
    } else {
        Ordering::Greater
    }
}

impl PartialEq for ID {
    fn eq(&self, other: &ID) -> (same: bool) {
        proof {
            lemma_lex_irreflexive(self@.key());
        }
        self.key_order(other) == Order::Equal
    }
}

impl PartialEqSpecImpl for ID {
    open spec fn obeys_eq_spec() -> bool {
        true
    }

    open spec fn eq_spec(&self, other: &ID) -> bool {
        self@.key() == other@.key()
    }
}

impl Eq for ID {

}

impl PartialOrd for ID {
    fn partial_cmp(&self, other: &ID) -> (order: Option<Ordering>) {
        Some(self.cmp(other))
    }
}

impl PartialOrdSpecImpl for ID {
    open spec fn obeys_partial_cmp_spec() -> bool {
        true
    }

    open spec fn partial_cmp_spec(&self, other: &ID) -> Option<Ordering> {
        Some(key_ordering(self@.key(), other@.key()))
    }
}

impl Default for ID {
    fn default() -> (id: ID)
        ensures
            id@ == IdView::empty(),
    {
        ID::empty()
    }
}

/// A platform and an identity on it, as the registry knows them.
#[derive(Clone, Debug)]
pub struct SimpleId {
    pub platform: String,
    pub identity: String,
}

/// The texts of a [`SimpleId`].
pub struct SimpleIdView {
    pub platform: Seq<char>,
    pub identity: Seq<char>,
}

impl View for SimpleId {
    type V = SimpleIdView;

    open spec fn view(&self) -> SimpleIdView {
        SimpleIdView { platform: self.platform@, identity: self.identity@ }
    }
}

impl IdView {
    /// What the registry is told of this identity.
    pub open spec fn simple(self) -> SimpleIdView {
        SimpleIdView { platform: self.platform, identity: self.identity }
    }
}

impl ID {
    /// What the registry is told of this identity.
    pub fn simple(&self) -> (simple: SimpleId)
        ensures
            simple@ == self@.simple(),
    {
        SimpleId { platform: self.platform.clone(), identity: self.identity.clone() }
    }
}

/// The owner's record as it is shown.
#[derive(Clone, Debug)]
pub struct Xid {
    pub pub_key: String,
    pub name: String,
    pub main_id: ID,
    pub ids: Vec<ID>,
    pub avatar_url: String,
}

/// The texts of an [`Xid`].
pub struct XidView {
    pub pub_key: Seq<char>,
    pub name: Seq<char>,
    pub main_id: IdView,
    pub ids: Seq<IdView>,
    pub avatar_url: Seq<char>,
}

impl View for Xid {
    type V = XidView;

    open spec fn view(&self) -> XidView {
        XidView {
            pub_key: self.pub_key@,
            name: self.name@,
            main_id: self.main_id@,
            ids: self.ids@.map_values(|id: ID| id@),
            avatar_url: self.avatar_url@,
        }
    }
}

/// The two kinds of stored content.
#[derive(Clone, Copy, Debug, PartialEq, Eq, Structural)]
pub enum ContentType {
    Twitter,
    OffChain,
}

/// A post on Twitter.
#[derive(Clone, Debug)]
pub struct TwitterContent {
    pub url: String,
    pub text_content: String,
    pub text_url: String,
    pub image_urls: Vec<String>,
    pub video_url: String,
    pub post_time: String,
}

/// The texts of a [`TwitterContent`].
pub struct TwitterContentView {
    pub url: Seq<char>,
    pub text_content: Seq<char>,
    pub text_url: Seq<char>,
    pub image_urls: Seq<Seq<char>>,
    pub video_url: Seq<char>,
    pub post_time: Seq<char>,
}

impl View for TwitterContent {
    type V = TwitterContentView;

    open spec fn view(&self) -> TwitterContentView {
        TwitterContentView {
            url: self.url@,
            text_content: self.text_content@,
            text_url: self.text_url@,
            image_urls: self.image_urls.deep_view(),
            video_url: self.video_url@,
            post_time: self.post_time@,
        }
    }
}

impl TwitterContent {
    /// A copy with the same texts.
    pub fn duplicate(&self) -> (copy: TwitterContent)
        ensures
            copy@ == self@,
    {
        TwitterContent {
            url: self.url.clone(),
            text_content: self.text_content.clone(),
            text_url: self.text_url.clone(),
            image_urls: duplicate_texts(&self.image_urls),
            video_url: self.video_url.clone(),
            post_time: self.post_time.clone(),
        }
    }
}

/// Content kept somewhere off the chain.
#[derive(Clone, Debug)]
pub struct OffChainContent {
    pub local_content_type: String,
    pub file_type: String,
    pub text_content: String,
    pub url: String,
}

/// The texts of an [`OffChainContent`].
pub struct OffChainContentView {
    pub local_content_type: Seq<char>,
    pub file_type: Seq<char>,
    pub text_content: Seq<char>,
    pub url: Seq<char>,
}

impl View for OffChainContent {
    type V = OffChainContentView;

    open spec fn view(&self) -> OffChainContentView {
        OffChainContentView {
            local_content_type: self.local_content_type@,
            file_type: self.file_type@,
            text_content: self.text_content@,
            url: self.url@,
        }
    }
}

impl OffChainContent {
    /// A copy with the same texts.
    pub fn duplicate(&self) -> (copy: OffChainContent)
        ensures
            copy@ == self@,
    {
        OffChainContent {
            local_content_type: self.local_content_type.clone(),
            file_type: self.file_type.clone(),
            text_content: self.text_content.clone(),
            url: self.url.clone(),
        }
    }
}

/// Content of either kind.
#[derive(Clone, Debug)]
pub enum Contents {
    TwitterContent(TwitterContent),
    OffChainContent(OffChainContent),
}

/// The texts of a [`Contents`].
pub enum ContentsView {
    TwitterContent(TwitterContentView),
    OffChainContent(OffChainContentView),
}

impl View for Contents {
    type V = ContentsView;

    open spec fn view(&self) -> ContentsView {
        match self {
            Contents::TwitterContent(t) => ContentsView::TwitterContent(t@),
            Contents::OffChainContent(o) => ContentsView::OffChainContent(o@),
        }
    }
}

/// Names a stored content: its kind and its identifier.
#[derive(Clone, Debug)]
pub struct ContentUuid {
    pub content_type: ContentType,
    pub uuid: String,
}

/// The texts of a [`ContentUuid`].
pub struct ContentUuidView {
    pub content_type: ContentType,
    pub uuid: Seq<char>,
}

impl View for ContentUuid {
    type V = ContentUuidView;

    open spec fn view(&self) -> ContentUuidView {
        ContentUuidView { content_type: self.content_type, uuid: self.uuid@ }
    }
}

/// A content to be stored.
#[derive(Clone, Debug)]
pub struct StoreArg {
    pub uuid: String,
    pub d_platform: String,
    pub content: Contents,
}

/// The texts of a [`StoreArg`].
pub struct StoreArgView {
    pub uuid: Seq<char>,
    pub d_platform: Seq<char>,
    pub content: ContentsView,
}

impl View for StoreArg {
    type V = StoreArgView;

    open spec fn view(&self) -> StoreArgView {
        StoreArgView { uuid: self.uuid@, d_platform: self.d_platform@, content: self.content@ }
    }
}

/// A stored content of either kind, as it is shown.
#[derive(Clone, Debug)]
pub struct Storage {
    pub owner: String,
    pub uuid: String,
    pub content: Contents,
    pub d_platform: String,
    pub is_minted: bool,
    pub mint_time: String,
    pub upload_time: String,
}

/// The texts of a [`Storage`].
pub struct StorageView {
    pub owner: Seq<char>,
    pub uuid: Seq<char>,
    pub content: ContentsView,
    pub d_platform: Seq<char>,
    pub is_minted: bool,
    pub mint_time: Seq<char>,
    pub upload_time: Seq<char>,
}

impl View for Storage {
    type V = StorageView;

    open spec fn view(&self) -> StorageView {
        StorageView {
            owner: self.owner@,
            uuid: self.uuid@,
            content: self.content@,
            d_platform: self.d_platform@,
            is_minted: self.is_minted,
            mint_time: self.mint_time@,
            upload_time: self.upload_time@,
        }
    }
}

/// A stored Twitter post.
#[derive(Clone, Debug)]
pub struct TwitterStorage {
    pub owner: String,
    pub uuid: String,
    pub twitter_content: TwitterContent,
    pub d_platform: String,
    pub is_minted: bool,
    pub mint_time: String,
    pub upload_time: String,
}

/// The texts of a [`TwitterStorage`].
pub struct TwitterStorageView {
    pub owner: Seq<char>,
    pub uuid: Seq<char>,
    pub twitter_content: TwitterContentView,
    pub d_platform: Seq<char>,
    pub is_minted: bool,
    pub mint_time: Seq<char>,
    pub upload_time: Seq<char>,
}

impl TwitterStorageView {
    /// The stored post as it is shown.
    pub open spec fn storage(self) -> StorageView {
        StorageView {
            owner: self.owner,
            uuid: self.uuid,
            content: ContentsView::TwitterContent(self.twitter_content),
            d_platform: self.d_platform,
            is_minted: self.is_minted,
            mint_time: self.mint_time,
            upload_time: self.upload_time,
        }
    }

    /// The stored post, marked as minted at `mint_time`.
    pub open spec fn minted(self, mint_time: Seq<char>) -> TwitterStorageView {
        TwitterStorageView { is_minted: true, mint_time, ..self }
    }
}

impl View for TwitterStorage {
    type V = TwitterStorageView;

    open spec fn view(&self) -> TwitterStorageView {
        TwitterStorageView {
            owner: self.owner@,
            uuid: self.uuid@,
            twitter_content: self.twitter_content@,
            d_platform: self.d_platform@,
            is_minted: self.is_minted,
            mint_time: self.mint_time@,
            upload_time: self.upload_time@,
        }
    }
}

impl Keyed for TwitterStorage {
    open spec fn key_of(v: TwitterStorageView) -> Seq<u8> {
        encode_utf8(v.uuid)
    }

    fn key_bytes(&self) -> (k: Vec<u8>) {
        self.uuid.as_str().as_bytes_vec()
    }
}

impl TwitterStorage {
    /// The stored post as it is shown.
    pub fn storage(&self) -> (shown: Storage)
        ensures
            shown@ == self@.storage(),
    {
        Storage {
            owner: self.owner.clone(),
            uuid: self.uuid.clone(),
            content: Contents::TwitterContent(self.twitter_content.duplicate()),
            d_platform: self.d_platform.clone(),
            is_minted: self.is_minted,
            mint_time: self.mint_time.clone(),
            upload_time: self.upload_time.clone(),
        }
    }
}

/// A stored off-chain content.
#[derive(Clone, Debug)]
pub struct OffStorage {
    pub owner: String,
    pub uuid: String,
    pub off_content: OffChainContent,
    pub d_platform: String,
    pub is_minted: bool,
    pub mint_time: String,
    pub upload_time: String,
}

/// The texts of an [`OffStorage`].
pub struct OffStorageView {
    pub owner: Seq<char>,
    pub uuid: Seq<char>,
    pub off_content: OffChainContentView,
    pub d_platform: Seq<char>,
    pub is_minted: bool,
    pub mint_time: Seq<char>,
    pub upload_time: Seq<char>,
}

impl OffStorageView {
    /// The stored content as it is shown.
    pub open spec fn storage(self) -> StorageView {
        StorageView {
            owner: self.owner,
            uuid: self.uuid,
            content: ContentsView::OffChainContent(self.off_content),
            d_platform: self.d_platform,
            is_minted: self.is_minted,
            mint_time: self.mint_time,
            upload_time: self.upload_time,
        }
    }

    /// The stored content, marked as minted at `mint_time`.
    pub open spec fn minted(self, mint_time: Seq<char>) -> OffStorageView {
        OffStorageView { is_minted: true, mint_time, ..self }
    }
}

impl View for OffStorage {
    type V = OffStorageView;

    open spec fn view(&self) -> OffStorageView {
        OffStorageView {
            owner: self.owner@,
            uuid: self.uuid@,
            off_content: self.off_content@,
            d_platform: self.d_platform@,
            is_minted: self.is_minted,
            mint_time: self.mint_time@,
            upload_time: self.upload_time@,
        }
    }
}

impl Keyed for OffStorage {
    open spec fn key_of(v: OffStorageView) -> Seq<u8> {
        encode_utf8(v.uuid)
    }

    fn key_bytes(&self) -> (k: Vec<u8>) {
        self.uuid.as_str().as_bytes_vec()
    }
}

impl OffStorage {
    /// The stored content as it is shown.
    pub fn storage(&self) -> (shown: Storage)
        ensures
            shown@ == self@.storage(),
    {
        Storage {
            owner: self.owner.clone(),
            uuid: self.uuid.clone(),
            content: Contents::OffChainContent(self.off_content.duplicate()),
            d_platform: self.d_platform.clone(),
            is_minted: self.is_minted,
            mint_time: self.mint_time.clone(),
            upload_time: self.upload_time.clone(),
        }
    }
}

/// A new display name, a new avatar address, or both.
#[derive(Clone, Debug)]
pub struct XidArgs {
    pub name: Option<String>,
    pub avatar_url: Option<String>,
}

/// The texts of an [`XidArgs`].
pub struct XidArgsView {
    pub name: Option<Seq<char>>,
    pub avatar_url: Option<Seq<char>>,
}

impl View for XidArgs {
    type V = XidArgsView;

    open spec fn view(&self) -> XidArgsView {
        XidArgsView {
            name: match self.name {
                Some(n) => Some(n@),
                None => None,
            },
            avatar_url: match self.avatar_url {
                Some(u) => Some(u@),
                None => None,
            },
        }
    }
}

/// An avatar image and its media type.
#[derive(Clone, Debug)]
pub struct Avatar {
    pub image_data: Vec<u8>,
    pub image_type: String,
}

/// The contents of an [`Avatar`].
pub struct AvatarView {
    pub image_data: Seq<u8>,
    pub image_type: Seq<char>,
}

impl AvatarView {
    /// The avatar with no image and no media type.
    pub open spec fn empty() -> AvatarView {
        AvatarView { image_data: Seq::empty(), image_type: Seq::empty() }
    }
}

impl View for Avatar {
    type V = AvatarView;

    open spec fn view(&self) -> AvatarView {
        AvatarView { image_data: self.image_data@, image_type: self.image_type@ }
    }
}

impl Avatar {
    /// The avatar with no image and no media type.
    pub fn empty() -> (avatar: Avatar)
        ensures
            avatar@ == AvatarView::empty(),
    {
        Avatar { image_data: Vec::new(), image_type: String::new() }
    }

    /// A copy with the same contents.
    pub fn duplicate(&self) -> (copy: Avatar)
        ensures
            copy@ == self@,
    {
        Avatar {
            image_data: duplicate_bytes(&self.image_data),
            image_type: self.image_type.clone(),
        }
    }
}

/// Everything the record of one owner holds.
pub struct State {
    /// The owner, as the text of a principal.
    pub pub_key: String,
    /// The display name.
    pub name: String,
    /// The main identity and the bound identities.
    pub ledger: IdentityLedger,
    /// The pending ticket: who said they would confirm a binding.
    pub ic_verify: String,
    pub avatar_url: String,
    pub avatar: Avatar,
    pub twitter_store: SortedSet<TwitterStorage>,
    pub off_store: SortedSet<OffStorage>,
}

/// What a [`State`] holds.
pub struct StateView {
    pub pub_key: Seq<char>,
    pub name: Seq<char>,
    pub ledger: LedgerView,
    pub ic_verify: Seq<char>,
    pub avatar_url: Seq<char>,
    pub avatar: AvatarView,
    pub twitter_store: Seq<TwitterStorageView>,
    pub off_store: Seq<OffStorageView>,
}

impl StateView {
    /// The record that holds nothing.
    pub open spec fn empty() -> StateView {
        StateView {
            pub_key: Seq::empty(),
            name: Seq::empty(),
            ledger: LedgerView::empty(),
            ic_verify: Seq::empty(),
            avatar_url: Seq::empty(),
            avatar: AvatarView::empty(),
            twitter_store: Seq::empty(),
            off_store: Seq::empty(),
        }
    }

    /// The bound identities and both stores are in the order of their keys.
    pub open spec fn wf(self) -> bool {
        &&& self.ledger.wf()
        &&& keys_sorted::<TwitterStorage>(self.twitter_store)
        &&& keys_sorted::<OffStorage>(self.off_store)
    }
}

impl View for State {
    type V = StateView;

    open spec fn view(&self) -> StateView {
        StateView {
            pub_key: self.pub_key@,
            name: self.name@,
            ledger: self.ledger@,
            ic_verify: self.ic_verify@,
            avatar_url: self.avatar_url@,
            avatar: self.avatar@,
            twitter_store: self.twitter_store@,
            off_store: self.off_store@,
        }
    }
}

impl State {
    /// The bound identities and both stores are in order: what every
    /// operation needs and keeps.
    pub open spec fn wf(&self) -> bool {
        self@.wf()
    }

    /// Tells whether the bound identities and both stores are in order.
    pub fn is_wf(&self) -> (ok: bool)
        ensures
            ok == self.wf(),
    {
        self.ledger.is_wf() && self.twitter_store.is_wf() && self.off_store.is_wf()
    }

    /// A record that holds nothing.
    pub fn new() -> (state: State)
        ensures
            state@ == StateView::empty(),
            state.wf(),
    {
        State {
            pub_key: String::new(),
            name: String::new(),
            ledger: IdentityLedger::new(),
            ic_verify: String::new(),
            avatar_url: String::new(),
            avatar: Avatar::empty(),
            twitter_store: SortedSet::new(),
            off_store: SortedSet::new(),
        }
    }
}

impl Default for State {
    fn default() -> (state: State)
        ensures
            state@ == StateView::empty(),
            state.wf(),
    {
        State::new()
    }
}

/// A record as it is saved: the same contents in plain lists.
#[derive(Clone, Debug)]
pub struct StableState {
    pub pub_key: String,
    pub name: String,
    pub main_id: ID,
    pub ids: Vec<ID>,
    pub ic_verify: String,
    pub avatar_url: String,
    pub avatar: Avatar,
    pub twitter_store: Vec<TwitterStorage>,
    pub off_store: Vec<OffStorage>,
}

/// What a [`StableState`] holds.
pub struct StableStateView {
    pub pub_key: Seq<char>,
    pub name: Seq<char>,
    pub main_id: IdView,
    pub ids: Seq<IdView>,
    pub ic_verify: Seq<char>,
    pub avatar_url: Seq<char>,
    pub avatar: AvatarView,
    pub twitter_store: Seq<TwitterStorageView>,
    pub off_store: Seq<OffStorageView>,
}

impl View for StableState {
    type V = StableStateView;

    open spec fn view(&self) -> StableStateView {
        StableStateView {
            pub_key: self.pub_key@,
            name: self.name@,
            main_id: self.main_id@,
            ids: self.ids@.map_values(|id: ID| id@),
            ic_verify: self.ic_verify@,
            avatar_url: self.avatar_url@,
            avatar: self.avatar@,
            twitter_store: self.twitter_store@.map_values(|t: TwitterStorage| t@),
            off_store: self.off_store@.map_values(|o: OffStorage| o@),
        }
    }
}

} // verus!
