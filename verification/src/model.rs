//! A host that follows the rules, and what the harness achieves on it.
//!
//! The harness cannot know how a host decides. What it relies on is stated
//! here as a model: a contract comes to life exactly when it is endowed with
//! the subsistence threshold or more, and collecting rent evicts a live
//! contract exactly from its eviction block on. On such a host the machines
//! of the harness end as the laws below say.

use vstd::prelude::*;
use crate::config::Balance;
use crate::config::BlockNumber;
use crate::config::lemma_rent_endowment_subsists;
use crate::config::spec_endowment;
use crate::config::Endow;
use crate::config::HostConfig;
use crate::hashing::CodeHash;
use crate::lifecycle::spec_instantiate;
use crate::eviction::eviction_target;
use crate::eviction::Eviction;
use crate::eviction::EvictionPhase;
use crate::eviction::EvictionStepView;
use crate::hashing::AccountId;
use crate::host::unexpected_reply_message;
use crate::host::AliveContractInfoView;
use crate::host::Contract;
use crate::host::ContractAccessError;
use crate::host::ContractInfoView;
use crate::host::RentProjection;
use crate::host::ReplyView;
use crate::host::RequestView;
use crate::lifecycle::InstantiationStepView;
use crate::lifecycle::InstantiationView;
use crate::storage::StorageKey;

verus! {

/// What the model host holds for the contract of a scenario.
pub enum ContractState {
    /// There is no contract yet.
    Absent,
    /// The contract is alive.
    Alive,
    /// The contract was evicted.
    Tombstone,
}

/// A host that follows the rules, reduced to the one contract of a scenario.
pub struct HostModel {
    /// The least endowment with which a contract comes to life.
    pub threshold: Balance,
    /// The address that the host computes for the contract.
    pub address: AccountId,
    /// The identifier of the contract's storage.
    pub trie_id: Seq<u8>,
    /// The first block at which the contract's rent exceeds what it can pay.
    pub eviction_block: BlockNumber,
    /// The block height.
    pub block: BlockNumber,
    /// The state of the contract.
    pub state: ContractState,
    /// The storage of the contract.
    pub storage: Map<StorageKey, Seq<u8>>,
    /// The registered code.
    pub codes: Set<Seq<u8>>,
}

pub open spec fn not_funded_message() -> Seq<char> {
    "NewContractNotFunded"@
}

impl HostModel {
    /// What the registry holds for an account.
    pub open spec fn lookup(self, account: AccountId) -> Option<ContractInfoView> {
        if account != self.address {
            None
        } else {
            match self.state {
                ContractState::Absent => None,
                ContractState::Alive => Some(
                    ContractInfoView::Alive(
                        AliveContractInfoView { trie_id: self.trie_id, storage_size: 0 },
                    ),
                ),
                ContractState::Tombstone => Some(ContractInfoView::Tombstone),
            }
        }
    }

    /// The host after a request, and its answer.
    pub open spec fn answer(self, request: RequestView) -> (HostModel, ReplyView) {
        match request {
            RequestView::SetBalance { who, amount } => (self, ReplyView::Done),
            RequestView::ComputeAddress { code_hash, data, caller } => (
                self,
                ReplyView::Address { account: self.address },
            ),
            RequestView::SetBlockNumber { number } => (
                HostModel { block: number, ..self },
                ReplyView::Done,
            ),
            RequestView::DeployCode { code } => (
                HostModel { codes: self.codes.insert(code), ..self },
                ReplyView::Dispatched { result: Ok(()) },
            ),
            RequestView::Instantiate { origin, endowment, gas_limit, code_hash, data } => {
                if endowment >= self.threshold {
                    (
                        HostModel { state: ContractState::Alive, ..self },
                        ReplyView::Dispatched { result: Ok(()) },
                    )
                } else {
                    (self, ReplyView::Dispatched { result: Err(not_funded_message()) })
                }
            },
            RequestView::ReadContract { account } => (
                self,
                ReplyView::Contract { info: self.lookup(account) },
            ),
            RequestView::SetStorageSize { account, storage_size } => (self, ReplyView::Done),
            RequestView::WriteStorage { account, trie_id, key, value } => {
                if self.state is Alive && account == self.address {
                    (
                        HostModel { storage: self.storage.insert(key, value), ..self },
                        ReplyView::Written { done: true },
                    )
                } else {
                    (self, ReplyView::Written { done: false })
                }
            },
            RequestView::ProjectRent { account } => (
                self,
                ReplyView::Projection {
                    projection: if account == self.address && self.state is Alive {
                        Ok(RentProjection::EvictionAt(self.eviction_block))
                    } else if account == self.address && self.state is Tombstone {
                        Err(ContractAccessError::IsTombstone)
                    } else {
                        Err(ContractAccessError::DoesntExist)
                    },
                },
            ),
            RequestView::CollectRent { account } => {
                if account == self.address && self.state is Alive && self.block
                    >= self.eviction_block {
                    (HostModel { state: ContractState::Tombstone, ..self }, ReplyView::Done)
                } else {
                    (self, ReplyView::Done)
                }
            },
        }
    }
}

/// The instantiation carried through on the model host, for at most `fuel`
/// requests: the host at the end, and how the instantiation ended.
pub open spec fn run_instantiation(
    host: HostModel,
    state: InstantiationView,
    request: RequestView,
    fuel: nat,
) -> (HostModel, Result<Contract, Seq<char>>)
    decreases fuel,
{
    if fuel == 0 {
        (host, Err(unexpected_reply_message()))
    } else {
        let (next, reply) = host.answer(request);
        match state.resume(reply) {
            InstantiationStepView::Ask(state, request) => run_instantiation(
                next,
                state,
                request,
                (fuel - 1) as nat,
            ),
            InstantiationStepView::Done(result) => (next, result),
        }
    }
}

/// The forced eviction carried through on the model host, for at most `fuel`
/// requests: the host at the end, and how the eviction ended.
pub open spec fn run_eviction(host: HostModel, state: Eviction, request: RequestView, fuel: nat) -> (
    HostModel,
    Result<(), Seq<char>>,
)
    decreases fuel,
{
    if fuel == 0 {
        (host, Err(unexpected_reply_message()))
    } else {
        let (next, reply) = host.answer(request);
        match state.spec_resume(reply) {
            EvictionStepView::Ask(state, request) => run_eviction(
                next,
                state,
                request,
                (fuel - 1) as nat,
            ),
            EvictionStepView::Done(result) => (next, result),
        }
    }
}

/// On a host that follows the rules, an instantiation ends with a live
/// contract exactly when the endowment is the subsistence threshold or more;
/// otherwise it ends with the host's reason and leaves no contract.
pub proof fn lemma_instantiation_alive_iff_funded(
    host: HostModel,
    config: HostConfig,
    caller: AccountId,
    code: Seq<u8>,
    code_hash: CodeHash,
    data: Seq<u8>,
    endow: Endow,
)
    requires
        host.state is Absent,
    ensures
        ({
            let start = spec_instantiate(config, caller, code, code_hash, data, endow);
            let endowment = spec_endowment(config, endow).1;
            let end = run_instantiation(host, start.0, start.1, 7);
            &&& end.1 is Ok <==> endowment >= host.threshold
            &&& endowment >= host.threshold ==> {
                &&& end.0.state is Alive
                &&& end.0.lookup(host.address) matches Some(ContractInfoView::Alive(_))
                &&& end.1 == Ok::<Contract, Seq<char>>(
                    Contract {
                        caller,
                        account_id: host.address,
                        addr: host.address,
                        endowment,
                        code_hash,
                    },
                )
            }
            &&& endowment < host.threshold ==> {
                &&& end.0.state is Absent
                &&& end.1 == Err::<Contract, Seq<char>>(not_funded_message())
            }
        }),
{
    reveal_with_fuel(run_instantiation, 8);
}

/// On a host that follows the rules and shares the fee model of the
/// configuration, a contract that is instantiated with a rent-bearing
/// endowment comes to life.
pub proof fn lemma_rent_bearing_contract_comes_alive(
    host: HostModel,
    config: HostConfig,
    caller: AccountId,
    code: Seq<u8>,
    code_hash: CodeHash,
    data: Seq<u8>,
)
    requires
        host.state is Absent,
        host.threshold == config.fees.subsistence_threshold,
        config.valid(),
        config.fees.rent_deposit_offset >= 1,
        config.fees.storage_size_offset >= 1,
        config.fees.subsistence_threshold < config.max_balance,
    ensures
        ({
            let start = spec_instantiate(config, caller, code, code_hash, data, Endow::CollectRent);
            let end = run_instantiation(host, start.0, start.1, 7);
            end.1 is Ok && end.0.state is Alive
        }),
{
    lemma_rent_endowment_subsists(config);
    lemma_instantiation_alive_iff_funded(
        host,
        config,
        caller,
        code,
        code_hash,
        data,
        Endow::CollectRent,
    );
}

/// On a host that follows the rules, registering code that is registered
/// already changes nothing.
pub proof fn lemma_deploying_twice_is_deploying_once(host: HostModel, code: Seq<u8>)
    ensures
        ({
            let once = host.answer(RequestView::DeployCode { code }).0;
            let twice = once.answer(RequestView::DeployCode { code }).0;
            &&& twice == once
            &&& once.codes.contains(code)
        }),
{
    let once = host.answer(RequestView::DeployCode { code }).0;
    assert(once.codes.insert(code) =~= once.codes);
}

/// On a host that follows the rules, forcing the eviction of a live contract
/// collects rent at the eviction block, the handicap and the margin later,
/// and leaves a tombstone.
pub proof fn lemma_forced_eviction_leaves_tombstone(host: HostModel, start: Eviction)
    requires
        host.state is Alive,
        start.phase == EvictionPhase::Projecting,
        start.account == host.address,
    ensures
        ({
            let end = run_eviction(
                host,
                start,
                RequestView::ProjectRent { account: start.account },
                4,
            );
            &&& end.1 == Ok::<(), Seq<char>>(())
            &&& end.0.state is Tombstone
            &&& end.0.block == eviction_target(host.eviction_block, start.handicap, start.margin)
            &&& end.0.block >= host.eviction_block
            &&& end.0.storage == host.storage
        }),
{
    reveal_with_fuel(run_eviction, 5);
}

/// On a host that follows the rules, rent collected before the eviction
/// block leaves the contract alive.
pub proof fn lemma_rent_before_eviction_keeps_alive(host: HostModel, block: BlockNumber)
    requires
        host.state is Alive,
        block < host.eviction_block,
    ensures
        ({
            let advanced = host.answer(RequestView::SetBlockNumber { number: block }).0;
            let collected = advanced.answer(RequestView::CollectRent { account: host.address }).0;
            &&& collected.state is Alive
            &&& collected.lookup(host.address) matches Some(ContractInfoView::Alive(_))
        }),
{
}

} // verus!
