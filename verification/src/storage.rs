//! Storage items that a contract is seeded with.

use vstd::prelude::*;
use crate::hashing::blake2_256;
use crate::hashing::hash_of;
use crate::hashing::spec_le_bytes;
use crate::hashing::AccountId;
use crate::code::copy_bytes;
use crate::host::get_alive;
use crate::host::not_alive_message;
use crate::host::unexpected_reply_message;
use crate::host::write_failed_message;
use crate::host::ContractInfoView;
use crate::host::Reply;
use crate::host::ReplyView;
use crate::host::Request;
use crate::host::RequestView;

verus! {

/// The key of a storage item.
pub type StorageKey = [u8; 32];

/// A storage item: its key and its value.
pub type StorageItem = (StorageKey, Vec<u8>);

/// The byte that fills the value of every generated item.
pub const FILL: u8 = 42;

pub open spec fn hash_too_big_message() -> Seq<char> {
    "Hash too big for storage key"@
}

/// The key of the item with the given number: the digest of the number.
pub open spec fn item_key(number: u32) -> Seq<u8> {
    blake2_256(spec_le_bytes(number))
}

/// The value of every generated item of the given size.
pub open spec fn item_value(size: u32) -> Seq<u8> {
    Seq::new(size as nat, |i: int| FILL)
}

/// The storage key with the given bytes.
pub open spec fn key_of(digest: Seq<u8>) -> StorageKey {
    choose|key: StorageKey| key@ == digest
}

/// A storage key is the key with its bytes.
pub proof fn lemma_key_of(key: StorageKey)
    ensures
        key_of(key@) == key,
{
    let chosen = key_of(key@);
    assert(chosen@ == key@);
    assert(chosen =~= key);
}

/// The items that [`create_storage`] generates, as contracts see them.
pub open spec fn spec_storage(stor_num: u32, stor_size: u32) -> Seq<(StorageKey, Seq<u8>)> {
    Seq::new(stor_num as nat, |i: int| (key_of(item_key(i as u32)), item_value(stor_size)))
}

/// Every one of the first `count` keys has the length of a storage key.
pub open spec fn keys_fit(count: nat) -> bool {
    forall|number: u32| number < count ==> (#[trigger] item_key(number)).len() == 32
}

/// The digest as a storage key, if it has the length of one.
pub fn storage_key(digest: &Vec<u8>) -> (key: Result<StorageKey, &'static str>)
    ensures
        digest@.len() == 32 ==> key is Ok && key->Ok_0@ == digest@,
        digest@.len() != 32 ==> key is Err && key->Err_0@ == hash_too_big_message(),
{
    if digest.len() != 32 {
        return Err("Hash too big for storage key");
    }
    let mut key: StorageKey = [0u8; 32];
    let mut at: usize = 0;
    while at < 32
        invariant
            at <= 32,
            digest@.len() == 32,
            forall|i: int| 0 <= i < at ==> key@[i] == digest@[i],
        decreases 32 - at,
    {
        key[at] = digest[at];
        at += 1;
    }
    proof {
        assert(key@ =~= digest@);
    }
    Ok(key)
}

/// A value of `size` bytes, each of them [`FILL`].
pub fn filled(size: u32) -> (value: Vec<u8>)
    ensures
        value@ == item_value(size),
{
    let mut value: Vec<u8> = Vec::new();
    let mut at: u32 = 0;
    while at < size
        invariant
            at <= size,
            value@.len() == at,
            forall|i: int| 0 <= i < at ==> value@[i] == FILL,
        decreases size - at,
    {
        value.push(FILL);
        at += 1;
    }
    proof {
        assert(value@ =~= item_value(size));
    }
    value
}

/// `stor_num` storage items of `stor_size` bytes each. The key of the item
/// with number `i` is the digest of `i`; its value is filled with [`FILL`].
/// Fails on the first digest that is not as long as a storage key.
pub fn create_storage(stor_num: u32, stor_size: u32) -> (items: Result<
    Vec<StorageItem>,
    &'static str,
>)
    ensures
        keys_fit(stor_num as nat) ==> {
            &&& items is Ok
            &&& items->Ok_0@.len() == stor_num
            &&& forall|i: int|
                0 <= i < stor_num ==> {
                    &&& (#[trigger] items->Ok_0@[i]).0@ == item_key(i as u32)
                    &&& items->Ok_0@[i].1@ == item_value(stor_size)
                }
            &&& items_view(items->Ok_0@) == spec_storage(stor_num, stor_size)
        },
        !keys_fit(stor_num as nat) ==> items is Err && items->Err_0@ == hash_too_big_message(),
{
    let mut items: Vec<StorageItem> = Vec::new();
    let mut number: u32 = 0;
    while number < stor_num
        invariant
            number <= stor_num,
            keys_fit(number as nat),
            items@.len() == number,
            forall|i: int|
                0 <= i < number ==> {
                    &&& (#[trigger] items@[i]).0@ == item_key(i as u32)
                    &&& items@[i].1@ == item_value(stor_size)
                },
        decreases stor_num - number,
    {
        let digest = hash_of(number);
        match storage_key(&digest) {
            Ok(key) => {
                items.push((key, filled(stor_size)));
            },
            Err(reason) => {
                proof {
                    assert(item_key(number).len() != 32);
                }
                return Err(reason);
            },
        }
        number += 1;
    }
    proof {
        assert forall|i: int| 0 <= i < stor_num implies items_view(items@)[i] == spec_storage(
            stor_num,
            stor_size,
        )[i] by {
            lemma_key_of(items@[i].0);
        }
        assert(items_view(items@) =~= spec_storage(stor_num, stor_size));
    }
    Ok(items)
}

/// Storage items as contracts see them.
pub open spec fn items_view(items: Seq<StorageItem>) -> Seq<(StorageKey, Seq<u8>)> {
    Seq::new(items.len(), |i: int| (items[i].0, items[i].1@))
}

/// The writing of storage items under way.
#[derive(Debug)]
pub struct Seeding {
    /// The account of the contract.
    pub account: AccountId,
    /// The items to write.
    pub items: Vec<StorageItem>,
    /// Whether the contract is still being looked up.
    pub reading: bool,
    /// The identifier of the contract's storage, once the host has told it.
    pub trie_id: Vec<u8>,
    /// The number of items that are written.
    pub written: usize,
}

/// The writing of storage items as contracts see it.
pub struct SeedingView {
    pub account: AccountId,
    pub items: Seq<(StorageKey, Seq<u8>)>,
    pub reading: bool,
    pub trie_id: Seq<u8>,
    pub written: nat,
}

impl View for Seeding {
    type V = SeedingView;

    open spec fn view(&self) -> SeedingView {
        SeedingView {
            account: self.account,
            items: items_view(self.items@),
            reading: self.reading,
            trie_id: self.trie_id@,
            written: self.written as nat,
        }
    }
}

/// What the writing of storage items does next.
#[derive(Debug)]
pub enum SeedingStep {
    /// It asks the host and waits for the answer.
    Ask(Seeding, Request),
    /// It has ended; if all went well, it hands the items back.
    Done(Result<Vec<StorageItem>, &'static str>),
}

/// The next step of the writing of storage items as contracts see it.
pub enum SeedingStepView {
    Ask(SeedingView, RequestView),
    Done(Result<Seq<(StorageKey, Seq<u8>)>, Seq<char>>),
}

impl View for SeedingStep {
    type V = SeedingStepView;

    open spec fn view(&self) -> SeedingStepView {
        match self {
            SeedingStep::Ask(state, request) => SeedingStepView::Ask(state@, request@),
            SeedingStep::Done(Ok(items)) => SeedingStepView::Done(Ok(items_view(items@))),
            SeedingStep::Done(Err(reason)) => SeedingStepView::Done(Err(reason@)),
        }
    }
}

impl SeedingView {
    /// The next item is written, or the writing ends with the items.
    pub open spec fn proceed(self) -> SeedingStepView {
        if self.written < self.items.len() {
            SeedingStepView::Ask(
                self,
                RequestView::WriteStorage {
                    account: self.account,
                    trie_id: self.trie_id,
                    key: self.items[self.written as int].0,
                    value: self.items[self.written as int].1,
                },
            )
        } else {
            SeedingStepView::Done(Ok(self.items))
        }
    }

    /// What the writing of storage items does on an answer of the host.
    ///
    /// The contract is looked up: it has to be alive. Then the items are
    /// written one by one, in order, into the storage that the host named.
    /// The first item that is not written ends the writing with the reason,
    /// and so does an answer that does not fit the request.
    pub open spec fn resume(self, reply: ReplyView) -> SeedingStepView {
        if self.reading {
            match reply {
                ReplyView::Contract { info: Some(ContractInfoView::Alive(alive)) } => (SeedingView {
                    reading: false,
                    trie_id: alive.trie_id,
                    written: 0,
                    ..self
                }).proceed(),
                ReplyView::Contract { info: _ } => SeedingStepView::Done(Err(not_alive_message())),
                _ => SeedingStepView::Done(Err(unexpected_reply_message())),
            }
        } else {
            match reply {
                ReplyView::Written { done: true } => if self.written < self.items.len() {
                    (SeedingView { written: self.written + 1, ..self }).proceed()
                } else {
                    SeedingStepView::Done(Err(unexpected_reply_message()))
                },
                ReplyView::Written { done: false } => SeedingStepView::Done(
                    Err(write_failed_message()),
                ),
                _ => SeedingStepView::Done(Err(unexpected_reply_message())),
            }
        }
    }
}

impl Seeding {
    /// Writes the next item, or ends with the items.
    fn proceed(self) -> (step: SeedingStep)
        requires
            self.written <= self.items@.len(),
        ensures
            step@ == self@.proceed(),
    {
        if self.written < self.items.len() {
            let request = Request::WriteStorage {
                account: self.account,
                trie_id: copy_bytes(&self.trie_id),
                key: self.items[self.written].0,
                value: copy_bytes(&self.items[self.written].1),
            };
            SeedingStep::Ask(self, request)
        } else {
            SeedingStep::Done(Ok(self.items))
        }
    }

    /// Takes the host's answer to the last request and tells what comes next.
    pub fn resume(self, reply: Reply) -> (step: SeedingStep)
        ensures
            step@ == self@.resume(reply@),
    {
        let mut state = self;
        if state.reading {
            match reply {
                Reply::Contract { info } => match get_alive(info) {
                    Ok(alive) => {
                        state.reading = false;
                        state.trie_id = alive.trie_id;
                        state.written = 0;
                        state.proceed()
                    },
                    Err(reason) => SeedingStep::Done(Err(reason)),
                },
                _ => SeedingStep::Done(Err("Unexpected answer from the host.")),
            }
        } else {
            match reply {
                Reply::Written { done: true } => {
                    if state.written < state.items.len() {
                        state.written = state.written + 1;
                        state.proceed()
                    } else {
                        SeedingStep::Done(Err("Unexpected answer from the host."))
                    }
                },
                Reply::Written { done: false } => SeedingStep::Done(
                    Err("Failed to write storage to restoration dest"),
                ),
                _ => SeedingStep::Done(Err("Unexpected answer from the host.")),
            }
        }
    }
}

/// Starts the writing of the given items into the storage of a contract,
/// past the contract's entry points: returns the writing and its first
/// request, the lookup of the contract.
pub fn store_items(account: AccountId, items: Vec<StorageItem>) -> (start: (Seeding, Request))
    ensures
        start.0@ == (SeedingView {
            account,
            items: items_view(items@),
            reading: true,
            trie_id: Seq::empty(),
            written: 0,
        }),
        start.1@ == (RequestView::ReadContract { account }),
{
    (
        Seeding { account, items, reading: true, trie_id: Vec::new(), written: 0 },
        Request::ReadContract { account },
    )
}

} // verus!
