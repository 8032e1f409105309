//! What the harness learns from the host runtime, as plain values.

use vstd::prelude::*;
use crate::config::Balance;
use crate::config::BlockNumber;
use crate::hashing::AccountId;
use crate::hashing::CodeHash;
use crate::storage::StorageKey;

verus! {

/// The record of a live contract, as far as the harness reads it.
pub struct AliveContractInfo {
    /// The identifier of the contract's storage trie.
    pub trie_id: Vec<u8>,
    /// The number of bytes the contract is charged rent for.
    pub storage_size: u32,
}

/// The record of a live contract as contracts see it.
pub struct AliveContractInfoView {
    pub trie_id: Seq<u8>,
    pub storage_size: u32,
}

impl View for AliveContractInfo {
    type V = AliveContractInfoView;

    open spec fn view(&self) -> AliveContractInfoView {
        AliveContractInfoView { trie_id: self.trie_id@, storage_size: self.storage_size }
    }
}

/// What the host's contract registry holds for an account.
pub enum ContractInfo {
    /// The contract is live.
    Alive(AliveContractInfo),
    /// The contract was evicted and left a tombstone.
    Tombstone,
}

/// What the registry holds for an account, as contracts see it.
pub enum ContractInfoView {
    Alive(AliveContractInfoView),
    Tombstone,
}

impl View for ContractInfo {
    type V = ContractInfoView;

    open spec fn view(&self) -> ContractInfoView {
        match self {
            ContractInfo::Alive(alive) => ContractInfoView::Alive(alive@),
            ContractInfo::Tombstone => ContractInfoView::Tombstone,
        }
    }
}

/// The view of what a lookup in the registry returns.
pub open spec fn lookup_view(info: Option<ContractInfo>) -> Option<ContractInfoView> {
    match info {
        Some(info) => Some(info@),
        None => None,
    }
}

/// The host's forecast of a contract's rent.
#[derive(Clone, Copy, Debug, PartialEq, Eq, Structural)]
pub enum RentProjection {
    /// The contract will be evicted at this block.
    EvictionAt(BlockNumber),
    /// The contract pays no rent and is never evicted.
    NoEviction,
}

/// The host found no live contract to make a forecast for.
#[derive(Clone, Copy, Debug, PartialEq, Eq, Structural)]
pub enum ContractAccessError {
    /// No contract lives at the account.
    DoesntExist,
    /// The account holds a tombstone.
    IsTombstone,
}

pub open spec fn not_alive_message() -> Seq<char> {
    "Expected contract to be alive at this point."@
}

pub open spec fn not_tombstone_message() -> Seq<char> {
    "Expected contract to be a tombstone at this point."@
}

pub open spec fn invalid_rent_account_message() -> Seq<char> {
    "Invalid acc for rent"@
}

pub open spec fn no_rent_message() -> Seq<char> {
    "Account does not pay rent."@
}

/// Whether what the registry holds is a live contract.
pub open spec fn is_alive(info: Option<ContractInfo>) -> bool {
    info matches Some(ContractInfo::Alive(_))
}

/// The live record among what the registry holds, or the reason why setup stops.
pub fn get_alive(info: Option<ContractInfo>) -> (r: Result<AliveContractInfo, &'static str>)
    ensures
        info matches Some(ContractInfo::Alive(alive)) ==> r == Ok::<AliveContractInfo, &'static str>(
            alive,
        ),
        !(info matches Some(ContractInfo::Alive(_))) ==> r is Err && r->Err_0@
            == not_alive_message(),
{
    match info {
        Some(ContractInfo::Alive(alive)) => Ok(alive),
        _ => Err("Expected contract to be alive at this point."),
    }
}

/// Succeeds exactly when the registry holds a live contract.
pub fn ensure_alive(info: Option<ContractInfo>) -> (r: Result<(), &'static str>)
    ensures
        r is Ok <==> info matches Some(ContractInfo::Alive(_)),
        r is Err ==> r->Err_0@ == not_alive_message(),
{
    match get_alive(info) {
        Ok(_) => Ok(()),
        Err(e) => Err(e),
    }
}

/// Succeeds exactly when the registry holds a tombstone.
pub fn ensure_tombstone(info: Option<ContractInfo>) -> (r: Result<(), &'static str>)
    ensures
        r is Ok <==> info == Some(ContractInfo::Tombstone),
        r is Err ==> r->Err_0@ == not_tombstone_message(),
{
    match info {
        Some(ContractInfo::Tombstone) => Ok(()),
        _ => Err("Expected contract to be a tombstone at this point."),
    }
}

/// The block at which the host forecasts the eviction of a contract.
pub fn eviction_at(projection: Result<RentProjection, ContractAccessError>) -> (r: Result<BlockNumber, &'static str>)
    ensures
        match projection {
            Ok(RentProjection::EvictionAt(at)) => r == Ok::<BlockNumber, &'static str>(at),
            Ok(RentProjection::NoEviction) => r is Err && r->Err_0@ == no_rent_message(),
            Err(_) => r is Err && r->Err_0@ == invalid_rent_account_message(),
        },
{
    match projection {
        Ok(RentProjection::EvictionAt(at)) => Ok(at),
        Ok(RentProjection::NoEviction) => Err("Account does not pay rent."),
        Err(_) => Err("Invalid acc for rent"),
    }
}

/// The gas limit of every dispatched operation: so high that no operation
/// ever fails for want of gas.
pub const GAS_LIMIT: u64 = 0xffff_ffff_ffff_ffff;

/// What the harness asks the host to do.
#[derive(Debug)]
pub enum Request {
    /// Set the free balance of an account.
    SetBalance { who: AccountId, amount: Balance },
    /// Tell the address that a contract instantiated from this code, with
    /// this input and by this caller will have.
    ComputeAddress { code_hash: CodeHash, data: Vec<u8>, caller: AccountId },
    /// Set the block height.
    SetBlockNumber { number: BlockNumber },
    /// Register the code, addressed by its hash.
    DeployCode { code: Vec<u8> },
    /// Instantiate a contract from registered code.
    Instantiate {
        origin: AccountId,
        endowment: Balance,
        gas_limit: u64,
        code_hash: CodeHash,
        data: Vec<u8>,
    },
    /// Look an account up in the contract registry.
    ReadContract { account: AccountId },
    /// Set the storage size that a live contract is charged rent for.
    SetStorageSize { account: AccountId, storage_size: u32 },
    /// Write an item into the storage of a contract, past its entry points.
    WriteStorage { account: AccountId, trie_id: Vec<u8>, key: StorageKey, value: Vec<u8> },
    /// Forecast the rent of a contract.
    ProjectRent { account: AccountId },
    /// Collect the rent that a contract owes.
    CollectRent { account: AccountId },
}

/// A request as contracts see it.
pub enum RequestView {
    SetBalance { who: AccountId, amount: Balance },
    ComputeAddress { code_hash: CodeHash, data: Seq<u8>, caller: AccountId },
    SetBlockNumber { number: BlockNumber },
    DeployCode { code: Seq<u8> },
    Instantiate {
        origin: AccountId,
        endowment: Balance,
        gas_limit: u64,
        code_hash: CodeHash,
        data: Seq<u8>,
    },
    ReadContract { account: AccountId },
    SetStorageSize { account: AccountId, storage_size: u32 },
    WriteStorage { account: AccountId, trie_id: Seq<u8>, key: StorageKey, value: Seq<u8> },
    ProjectRent { account: AccountId },
    CollectRent { account: AccountId },
}

impl View for Request {
    type V = RequestView;

    open spec fn view(&self) -> RequestView {
        match self {
            Request::SetBalance { who, amount } => RequestView::SetBalance {
                who: *who,
                amount: *amount,
            },
            Request::ComputeAddress { code_hash, data, caller } => RequestView::ComputeAddress {
                code_hash: *code_hash,
                data: data@,
                caller: *caller,
            },
            Request::SetBlockNumber { number } => RequestView::SetBlockNumber { number: *number },
            Request::DeployCode { code } => RequestView::DeployCode { code: code@ },
            Request::Instantiate {
                origin,
                endowment,
                gas_limit,
                code_hash,
                data,
            } => RequestView::Instantiate {
                origin: *origin,
                endowment: *endowment,
                gas_limit: *gas_limit,
                code_hash: *code_hash,
                data: data@,
            },
            Request::ReadContract { account } => RequestView::ReadContract { account: *account },
            Request::SetStorageSize { account, storage_size } => RequestView::SetStorageSize {
                account: *account,
                storage_size: *storage_size,
            },
            Request::WriteStorage { account, trie_id, key, value } => RequestView::WriteStorage {
                account: *account,
                trie_id: trie_id@,
                key: *key,
                value: value@,
            },
            Request::ProjectRent { account } => RequestView::ProjectRent { account: *account },
            Request::CollectRent { account } => RequestView::CollectRent { account: *account },
        }
    }
}

/// What the host answers.
pub enum Reply {
    /// The request was carried out; there is nothing to tell.
    Done,
    /// The address asked for.
    Address { account: AccountId },
    /// How a dispatched operation ended: well, or with the host's reason.
    Dispatched { result: Result<(), &'static str> },
    /// What the registry holds for the account.
    Contract { info: Option<ContractInfo> },
    /// Whether the item was written.
    Written { done: bool },
    /// The forecast asked for.
    Projection { projection: Result<RentProjection, ContractAccessError> },
}

/// An answer as contracts see it.
pub enum ReplyView {
    Done,
    Address { account: AccountId },
    Dispatched { result: Result<(), Seq<char>> },
    Contract { info: Option<ContractInfoView> },
    Written { done: bool },
    Projection { projection: Result<RentProjection, ContractAccessError> },
}

impl View for Reply {
    type V = ReplyView;

    open spec fn view(&self) -> ReplyView {
        match self {
            Reply::Done => ReplyView::Done,
            Reply::Address { account } => ReplyView::Address { account: *account },
            Reply::Dispatched { result } => ReplyView::Dispatched {
                result: match result {
                    Ok(_) => Ok(()),
                    Err(reason) => Err(reason@),
                },
            },
            Reply::Contract { info } => ReplyView::Contract { info: lookup_view(*info) },
            Reply::Written { done } => ReplyView::Written { done: *done },
            Reply::Projection { projection } => ReplyView::Projection { projection: *projection },
        }
    }
}

/// A contract that a scenario has instantiated.
#[derive(Clone, Copy, Debug)]
pub struct Contract {
    /// The account that instantiated the contract.
    pub caller: AccountId,
    /// The account of the contract.
    pub account_id: AccountId,
    /// The address under which the host looks the contract up.
    pub addr: AccountId,
    /// What the contract was endowed with.
    pub endowment: Balance,
    /// The hash of the contract's code.
    pub code_hash: CodeHash,
}

pub open spec fn unexpected_reply_message() -> Seq<char> {
    "Unexpected answer from the host."@
}

pub open spec fn write_failed_message() -> Seq<char> {
    "Failed to write storage to restoration dest"@
}

} // verus!
