//! The life of a contract, driven one request at a time.
//!
//! The harness does not reach into the host. Each operation of a contract's
//! life is a small machine: it hands out the next request for the host, is
//! resumed with the host's answer, and ends with a fixture or with the reason
//! why setup stops.

use vstd::prelude::*;
use crate::code::copy_bytes;
use crate::code::WasmModule;
use crate::config::endowment;
use crate::config::funding;
use crate::config::spec_endowment;
use crate::config::spec_funding;
use crate::config::Balance;
use crate::config::Endow;
use crate::config::HostConfig;
use crate::hashing::account;
use crate::hashing::benchmark_account;
use crate::hashing::unlookup;
use crate::hashing::AccountId;
use crate::hashing::CodeHash;
use crate::host::not_alive_message;
use crate::host::unexpected_reply_message;
use crate::host::Contract;
use crate::host::ContractInfoView;
use crate::host::Reply;
use crate::host::ReplyView;
use crate::host::Request;
use crate::host::RequestView;
use crate::host::GAS_LIMIT;

verus! {

/// Where an instantiation stands: which answer it waits for.
#[derive(Clone, Copy, Debug, PartialEq, Eq, Structural)]
pub enum InstantiationPhase {
    /// The caller is being funded.
    Funding,
    /// The address of the contract is being computed.
    Addressing,
    /// The block height is being set to one.
    Starting,
    /// The code is being registered.
    Deploying,
    /// The contract is being instantiated.
    Instantiating,
    /// The contract is being looked up.
    Reading,
    /// The storage size of the contract is being set.
    Sizing,
}

/// An instantiation under way.
#[derive(Debug)]
pub struct Instantiation {
    pub phase: InstantiationPhase,
    /// The account that instantiates the contract.
    pub caller: AccountId,
    /// The code of the contract.
    pub module: WasmModule,
    /// The input of the constructor.
    pub data: Vec<u8>,
    /// The storage size that the contract will be charged for.
    pub storage_size: u32,
    /// What the contract is endowed with.
    pub endowment: Balance,
    /// The account of the contract, once the host has told it.
    pub account: AccountId,
}

/// An instantiation as contracts see it.
pub struct InstantiationView {
    pub phase: InstantiationPhase,
    pub caller: AccountId,
    pub code: Seq<u8>,
    pub code_hash: CodeHash,
    pub data: Seq<u8>,
    pub storage_size: u32,
    pub endowment: Balance,
    pub account: AccountId,
}

impl View for Instantiation {
    type V = InstantiationView;

    open spec fn view(&self) -> InstantiationView {
        InstantiationView {
            phase: self.phase,
            caller: self.caller,
            code: self.module.code@,
            code_hash: self.module.hash,
            data: self.data@,
            storage_size: self.storage_size,
            endowment: self.endowment,
            account: self.account,
        }
    }
}

/// What an instantiation does next.
#[derive(Debug)]
pub enum InstantiationStep {
    /// It asks the host and waits for the answer.
    Ask(Instantiation, Request),
    /// It has ended.
    Done(Result<Contract, &'static str>),
}

/// The next step of an instantiation as contracts see it.
pub enum InstantiationStepView {
    Ask(InstantiationView, RequestView),
    Done(Result<Contract, Seq<char>>),
}

impl View for InstantiationStep {
    type V = InstantiationStepView;

    open spec fn view(&self) -> InstantiationStepView {
        match self {
            InstantiationStep::Ask(state, request) => InstantiationStepView::Ask(state@, request@),
            InstantiationStep::Done(Ok(contract)) => InstantiationStepView::Done(Ok(*contract)),
            InstantiationStep::Done(Err(reason)) => InstantiationStepView::Done(Err(reason@)),
        }
    }
}

impl InstantiationView {
    /// The fixture that the instantiation ends with when all goes well.
    pub open spec fn contract(self) -> Contract {
        Contract {
            caller: self.caller,
            account_id: self.account,
            addr: self.account,
            endowment: self.endowment,
            code_hash: self.code_hash,
        }
    }

    /// The instantiation in another phase.
    pub open spec fn at(self, phase: InstantiationPhase) -> InstantiationView {
        InstantiationView { phase, ..self }
    }

    /// What the instantiation does on an answer of the host.
    ///
    /// The caller is funded, the address of the contract is asked for, the
    /// block height is set to one, the code is registered, the contract is
    /// instantiated with a gas limit that cannot be reached, looked up and, if
    /// it is alive, given its storage size. A failure of the host ends the
    /// instantiation with the host's reason, a contract that is not alive
    /// with a reason of its own, and so does an answer that does not fit
    /// the request.
    pub open spec fn resume(self, reply: ReplyView) -> InstantiationStepView {
        match (self.phase, reply) {
            (InstantiationPhase::Funding, ReplyView::Done) => InstantiationStepView::Ask(
                self.at(InstantiationPhase::Addressing),
                RequestView::ComputeAddress {
                    code_hash: self.code_hash,
                    data: self.data,
                    caller: self.caller,
                },
            ),
            (InstantiationPhase::Addressing, ReplyView::Address { account }) => {
                InstantiationStepView::Ask(
                    InstantiationView { phase: InstantiationPhase::Starting, account, ..self },
                    RequestView::SetBlockNumber { number: 1 },
                )
            },
            (InstantiationPhase::Starting, ReplyView::Done) => InstantiationStepView::Ask(
                self.at(InstantiationPhase::Deploying),
                RequestView::DeployCode { code: self.code },
            ),
            (InstantiationPhase::Deploying, ReplyView::Dispatched { result: Ok(_) }) => {
                InstantiationStepView::Ask(
                    self.at(InstantiationPhase::Instantiating),
                    RequestView::Instantiate {
                        origin: self.caller,
                        endowment: self.endowment,
                        gas_limit: GAS_LIMIT,
                        code_hash: self.code_hash,
                        data: self.data,
                    },
                )
            },
            (InstantiationPhase::Deploying, ReplyView::Dispatched { result: Err(reason) }) => {
                InstantiationStepView::Done(Err(reason))
            },
            (InstantiationPhase::Instantiating, ReplyView::Dispatched { result: Ok(_) }) => {
                InstantiationStepView::Ask(
                    self.at(InstantiationPhase::Reading),
                    RequestView::ReadContract { account: self.account },
                )
            },
            (InstantiationPhase::Instantiating, ReplyView::Dispatched { result: Err(reason) }) => {
                InstantiationStepView::Done(Err(reason))
            },
            (InstantiationPhase::Reading, ReplyView::Contract { info }) => match info {
                Some(ContractInfoView::Alive(_)) => InstantiationStepView::Ask(
                    self.at(InstantiationPhase::Sizing),
                    RequestView::SetStorageSize {
                        account: self.account,
                        storage_size: self.storage_size,
                    },
                ),
                _ => InstantiationStepView::Done(Err(not_alive_message())),
            },
            (InstantiationPhase::Sizing, ReplyView::Done) => InstantiationStepView::Done(
                Ok(self.contract()),
            ),
            _ => InstantiationStepView::Done(Err(unexpected_reply_message())),
        }
    }
}

/// The instantiation that [`instantiate_contract_from_account`] starts, and
/// its first request: the caller is funded.
pub open spec fn spec_instantiate(
    config: HostConfig,
    caller: AccountId,
    code: Seq<u8>,
    code_hash: CodeHash,
    data: Seq<u8>,
    endow: Endow,
) -> (InstantiationView, RequestView) {
    (
        InstantiationView {
            phase: InstantiationPhase::Funding,
            caller,
            code,
            code_hash,
            data,
            storage_size: spec_endowment(config, endow).0,
            endowment: spec_endowment(config, endow).1,
            account: caller,
        },
        RequestView::SetBalance { who: caller, amount: spec_funding(config) },
    )
}

impl Instantiation {
    /// Takes the host's answer to the last request and tells what comes next.
    pub fn resume(self, reply: Reply) -> (step: InstantiationStep)
        ensures
            step@ == self@.resume(reply@),
    {
        let ghost before = self@;
        let mut state = self;
        match (state.phase, reply) {
            (InstantiationPhase::Funding, Reply::Done) => {
                let request = Request::ComputeAddress {
                    code_hash: state.module.hash,
                    data: copy_bytes(&state.data),
                    caller: state.caller,
                };
                state.phase = InstantiationPhase::Addressing;
                InstantiationStep::Ask(state, request)
            },
            (InstantiationPhase::Addressing, Reply::Address { account }) => {
                state.phase = InstantiationPhase::Starting;
                state.account = account;
                InstantiationStep::Ask(state, init_block_number())
            },
            (InstantiationPhase::Starting, Reply::Done) => {
                let request = Request::DeployCode { code: copy_bytes(&state.module.code) };
                state.phase = InstantiationPhase::Deploying;
                InstantiationStep::Ask(state, request)
            },
            (InstantiationPhase::Deploying, Reply::Dispatched { result: Ok(_) }) => {
                let request = Request::Instantiate {
                    origin: state.caller,
                    endowment: state.endowment,
                    gas_limit: GAS_LIMIT,
                    code_hash: state.module.hash,
                    data: copy_bytes(&state.data),
                };
                state.phase = InstantiationPhase::Instantiating;
                InstantiationStep::Ask(state, request)
            },
            (InstantiationPhase::Deploying, Reply::Dispatched { result: Err(reason) }) => {
                InstantiationStep::Done(Err(reason))
            },
            (InstantiationPhase::Instantiating, Reply::Dispatched { result: Ok(_) }) => {
                let request = Request::ReadContract { account: state.account };
                state.phase = InstantiationPhase::Reading;
                InstantiationStep::Ask(state, request)
            },
            (InstantiationPhase::Instantiating, Reply::Dispatched { result: Err(reason) }) => {
                InstantiationStep::Done(Err(reason))
            },
            (InstantiationPhase::Reading, Reply::Contract { info }) => {
                match crate::host::ensure_alive(info) {
                    Ok(_) => {
                        let request = Request::SetStorageSize {
                            account: state.account,
                            storage_size: state.storage_size,
                        };
                        state.phase = InstantiationPhase::Sizing;
                        InstantiationStep::Ask(state, request)
                    },
                    Err(reason) => InstantiationStep::Done(Err(reason)),
                }
            },
            (InstantiationPhase::Sizing, Reply::Done) => {
                InstantiationStep::Done(
                    Ok(
                        Contract {
                            caller: state.caller,
                            account_id: state.account,
                            addr: unlookup(state.account),
                            endowment: state.endowment,
                            code_hash: state.module.hash,
                        },
                    ),
                )
            },
            _ => InstantiationStep::Done(Err("Unexpected answer from the host.")),
        }
    }
}

/// The request that sets the block height to one. The host counts a block
/// height of zero as one when it runs the measured operation; with the height
/// set beforehand, setup and measurement see the same block.
pub fn init_block_number() -> (request: Request)
    ensures
        request@ == (RequestView::SetBlockNumber { number: 1 }),
{
    Request::SetBlockNumber { number: 1 }
}

/// The request that registers the code of a module. A host addresses code by
/// its hash, so that registering the same code again changes nothing.
pub fn deploy(module: &WasmModule) -> (request: Request)
    ensures
        request@ == (RequestView::DeployCode { code: module.code@ }),
{
    Request::DeployCode { code: copy_bytes(&module.code) }
}

/// Starts the instantiation of a contract by the given caller: returns the
/// instantiation and its first request.
pub fn instantiate_contract_from_account(
    config: &HostConfig,
    caller: AccountId,
    module: WasmModule,
    data: Vec<u8>,
    endow: Endow,
) -> (start: (Instantiation, Request))
    requires
        config.valid(),
    ensures
        (start.0@, start.1@) == spec_instantiate(
            *config,
            caller,
            module.code@,
            module.hash,
            data@,
            endow,
        ),
{
    let (storage_size, endowment) = endowment(config, endow);
    let request = Request::SetBalance { who: caller, amount: funding(config) };
    (
        Instantiation {
            phase: InstantiationPhase::Funding,
            caller,
            module,
            data,
            storage_size,
            endowment,
            account: caller,
        },
        request,
    )
}

/// The account that instantiates the contracts of a scenario: the benchmark
/// account named `instantiator` with the given index.
pub open spec fn instantiator(index: u32) -> Seq<u8> {
    benchmark_account("instantiator"@, index, 0)
}

/// Starts the instantiation of a contract by the instantiator with the given
/// index.
pub fn instantiate_contract_from_index(
    config: &HostConfig,
    index: u32,
    module: WasmModule,
    data: Vec<u8>,
    endow: Endow,
) -> (start: (Instantiation, Request))
    requires
        config.valid(),
    ensures
        start.0@.caller@ == instantiator(index),
        (start.0@, start.1@) == spec_instantiate(
            *config,
            start.0@.caller,
            module.code@,
            module.hash,
            data@,
            endow,
        ),
{
    instantiate_contract_from_account(config, account("instantiator", index, 0), module, data, endow)
}

/// Starts the instantiation of a contract by the first instantiator.
pub fn instantiate_contract(config: &HostConfig, module: WasmModule, data: Vec<u8>, endow: Endow) -> (start:
    (Instantiation, Request))
    requires
        config.valid(),
    ensures
        start.0@.caller@ == instantiator(0),
        (start.0@, start.1@) == spec_instantiate(
            *config,
            start.0@.caller,
            module.code@,
            module.hash,
            data@,
            endow,
        ),
{
    instantiate_contract_from_index(config, 0, module, data, endow)
}

/// The benchmark account with the given name and index, and the request
/// that funds it.
pub fn create_funded_user(config: &HostConfig, string: &'static str, n: u32) -> (user: (
    AccountId,
    Request,
))
    ensures
        user.0@ == benchmark_account(string@, n, 0),
        user.1@ == (RequestView::SetBalance { who: user.0, amount: spec_funding(*config) }),
{
    let user = account(string, n, 0);
    (user, Request::SetBalance { who: user, amount: funding(config) })
}

} // verus!
